use slim_shader::state::{
    classify_draw_failure, DrawFailure, DrawRecovery, LoopDirective, RenderState, WindowInput,
};

const VALID_RED: &str = "\
@fragment\n\
fn main() -> @location(0) vec4<f32> {\n\
    return vec4<f32>(1.0, 0.0, 0.0, 1.0);\n\
}\n";

const VALID_GREEN: &str = "\
@fragment\n\
fn main() -> @location(0) vec4<f32> {\n\
    return vec4<f32>(0.0, 1.0, 0.0, 1.0);\n\
}\n";

fn fresh_state() -> RenderState {
    RenderState::start(Ok(VALID_RED.to_string()), 800, 600).expect("valid shader must start")
}

#[test]
fn pointer_at_origin_maps_to_top_left() {
    let mut state = fresh_state();
    state.on_pointer_move(0, 0, 800, 600);
    // (-1, 1, 0)
    assert_eq!(state.uniforms.pointer_x.num, -800);
    assert_eq!(state.uniforms.pointer_x.den, 800);
    assert_eq!(state.uniforms.pointer_y.num, 600);
    assert_eq!(state.uniforms.pointer_y.den, 600);
    assert_eq!(state.uniforms.pointer_z.num, 0);
    let x = state.uniforms.pointer_x.num as f32 / state.uniforms.pointer_x.den as f32;
    let y = state.uniforms.pointer_y.num as f32 / state.uniforms.pointer_y.den as f32;
    assert_eq!((x, y), (-1.0, 1.0));
}

#[test]
fn pointer_at_far_corner_maps_to_bottom_right() {
    let mut state = fresh_state();
    state.on_pointer_move(800, 600, 800, 600);
    // (1, -1, 0)
    assert_eq!(state.uniforms.pointer_x.num, 800);
    assert_eq!(state.uniforms.pointer_y.num, -600);
    assert_eq!(state.uniforms.pointer_z.num, 0);
    let x = state.uniforms.pointer_x.num as f32 / state.uniforms.pointer_x.den as f32;
    let y = state.uniforms.pointer_y.num as f32 / state.uniforms.pointer_y.den as f32;
    assert_eq!((x, y), (1.0, -1.0));
}

#[test]
fn pointer_at_center_maps_to_zero() {
    let mut state = fresh_state();
    state.on_pointer_move(400, 300, 800, 600);
    // (0, 0, 0)
    assert_eq!(state.uniforms.pointer_x.num, 0);
    assert_eq!(state.uniforms.pointer_y.num, 0);
    assert_eq!(state.uniforms.pointer_z.num, 0);
}

#[test]
fn zero_area_resize_is_ignored() {
    let mut state = fresh_state();
    assert!(!state.on_resize(0, 600));
    assert_eq!((state.uniforms.width, state.uniforms.height), (800, 600));
    assert!(!state.on_resize(1024, 0));
    assert_eq!((state.uniforms.width, state.uniforms.height), (800, 600));
    assert!(!state.on_resize(0, 0));
    assert_eq!((state.uniforms.width, state.uniforms.height), (800, 600));
}

#[test]
fn resize_updates_resolution_and_is_idempotent() {
    let mut state = fresh_state();
    assert!(state.on_resize(1024, 768));
    assert_eq!((state.uniforms.width, state.uniforms.height), (1024, 768));
    assert!(state.on_resize(1024, 768));
    assert_eq!((state.uniforms.width, state.uniforms.height), (1024, 768));
}

#[test]
fn frame_updates_elapsed_and_draws_fullscreen_triangle() {
    let mut state = fresh_state();
    let out = state.on_frame(1_500_000);
    assert_eq!(state.uniforms.elapsed_micros, 1_500_000);
    assert_eq!(out.uniforms, state.uniforms);
    assert_eq!(out.draw.vertex_count, 3);
    assert_eq!(out.draw.instance_count, 1);
    assert_eq!(out.draw.uniform_bind_slot, 0);
}

#[test]
fn reload_with_valid_shader_swaps_program() {
    let mut state = fresh_state();
    let r = state.on_reload(Ok(VALID_GREEN.to_string()));
    assert!(r.is_ok());
    assert_eq!(state.generation, 1);
    assert_eq!(state.program.source_text().as_str(), VALID_GREEN);
}

#[test]
fn reload_with_broken_shader_keeps_program() {
    let mut state = fresh_state();
    let r = state.on_reload(Ok("broken {".to_string()));
    assert!(r.is_err());
    assert_eq!(state.generation, 0);
    assert_eq!(state.program.source_text().as_str(), VALID_RED);
}

#[test]
fn reload_with_unreadable_file_keeps_program() {
    let mut state = fresh_state();
    let r = state.on_reload(Err("permission denied".to_string()));
    assert!(r.is_err());
    assert_eq!(state.generation, 0);
    assert_eq!(state.program.source_text().as_str(), VALID_RED);
}

#[test]
fn edit_cycle_keeps_last_good_program() {
    // Start on a red shader, move to a green one, then save broken text
    // twice: each broken save yields exactly one diagnostic, and the
    // frames in between keep drawing the green program.
    let mut state = fresh_state();

    assert!(state.on_reload(Ok(VALID_GREEN.to_string())).is_ok());
    let out = state.on_frame(10);
    assert_eq!(out.draw.vertex_count, 3);
    assert_eq!(state.program.source_text().as_str(), VALID_GREEN);
    assert_eq!(state.generation, 1);

    let mut diagnostics = 0;
    if state.on_reload(Ok("broken one".to_string())).is_err() {
        diagnostics += 1;
    }
    assert_eq!(diagnostics, 1);
    let out = state.on_frame(20);
    assert_eq!(out.draw.instance_count, 1);
    assert_eq!(state.program.source_text().as_str(), VALID_GREEN);
    assert_eq!(state.generation, 1);

    if state.on_reload(Ok("broken two".to_string())).is_err() {
        diagnostics += 1;
    }
    assert_eq!(diagnostics, 2);
    assert_eq!(state.program.source_text().as_str(), VALID_GREEN);
    assert_eq!(state.generation, 1);
}

#[test]
fn draw_failures_classify_once() {
    assert_eq!(
        classify_draw_failure(DrawFailure::Timeout),
        DrawRecovery::RetryNextFrame
    );
    assert_eq!(
        classify_draw_failure(DrawFailure::Occluded),
        DrawRecovery::RetryNextFrame
    );
    assert_eq!(
        classify_draw_failure(DrawFailure::Outdated),
        DrawRecovery::Reconfigure
    );
    assert_eq!(
        classify_draw_failure(DrawFailure::Lost),
        DrawRecovery::Reconfigure
    );
    assert_eq!(
        classify_draw_failure(DrawFailure::OutOfMemory),
        DrawRecovery::Fatal
    );
    assert_eq!(
        classify_draw_failure(DrawFailure::Rejected),
        DrawRecovery::RetryNextFrame
    );
}

#[test]
fn close_and_escape_exit_the_loop() {
    let mut state = fresh_state();
    assert_eq!(
        state.on_window_event(WindowInput::CloseRequested),
        LoopDirective::Exit
    );
    assert_eq!(
        state.on_window_event(WindowInput::EscapePressed),
        LoopDirective::Exit
    );
}

#[test]
fn window_events_drive_the_state() {
    let mut state = fresh_state();
    assert_eq!(
        state.on_window_event(WindowInput::Resized { width: 640, height: 480 }),
        LoopDirective::Reconfigure
    );
    assert_eq!((state.uniforms.width, state.uniforms.height), (640, 480));

    assert_eq!(
        state.on_window_event(WindowInput::Resized { width: 0, height: 480 }),
        LoopDirective::Continue
    );
    assert_eq!((state.uniforms.width, state.uniforms.height), (640, 480));

    assert_eq!(
        state.on_window_event(WindowInput::PointerMoved { px: 320, py: 240, view_w: 640, view_h: 480 }),
        LoopDirective::Continue
    );
    assert_eq!(state.uniforms.pointer_x.num, 0);
    assert_eq!(state.uniforms.pointer_y.num, 0);

    assert_eq!(
        state.on_window_event(WindowInput::PointerMoved { px: 1, py: 2, view_w: 0, view_h: 480 }),
        LoopDirective::Continue
    );
    assert_eq!(state.uniforms.pointer_x.num, 0);

    assert_eq!(
        state.on_window_event(WindowInput::Other),
        LoopDirective::Continue
    );
}
