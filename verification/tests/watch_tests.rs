use slim_shader::shader::CompileError;
use slim_shader::state::RenderState;
use slim_shader::watch::{classify_fs_event, process_pending, FsEvent, ReloadSlot, WatchAction};

const VALID_RED: &str = "\
@fragment\n\
fn main() -> @location(0) vec4<f32> {\n\
    return vec4<f32>(1.0, 0.0, 0.0, 1.0);\n\
}\n";

const VALID_BLUE: &str = "\
@fragment\n\
fn main() -> @location(0) vec4<f32> {\n\
    return vec4<f32>(0.0, 0.0, 1.0, 1.0);\n\
}\n";

fn fresh_state() -> RenderState {
    RenderState::start(Ok(VALID_RED.to_string()), 800, 600).expect("valid shader must start")
}

#[test]
fn modification_with_path_emits_reload() {
    let action = classify_fs_event(FsEvent { carries_path: true, is_modification: true });
    assert_eq!(action, WatchAction::EmitReload);
}

#[test]
fn event_without_path_is_noise() {
    let action = classify_fs_event(FsEvent { carries_path: false, is_modification: true });
    assert_eq!(action, WatchAction::Ignore);
}

#[test]
fn unrelated_event_is_noise() {
    let action = classify_fs_event(FsEvent { carries_path: true, is_modification: false });
    assert_eq!(action, WatchAction::Ignore);
}

#[test]
fn take_reports_and_clears() {
    let mut slot = ReloadSlot::new();
    assert!(!slot.take());
    slot.notify();
    assert!(slot.take());
    assert!(!slot.take());
}

#[test]
fn notifications_between_frames_coalesce_to_one_reload() {
    let mut slot = ReloadSlot::new();
    let mut state = fresh_state();

    // Five rapid saves between two frames...
    for _ in 0..5 {
        slot.notify();
    }
    // ...and the next frame runs exactly one reload, on the content the
    // file holds now.
    let first = process_pending(&mut slot, &mut state, Ok(VALID_BLUE.to_string()));
    assert!(matches!(first, Some(Ok(()))));
    assert_eq!(state.generation, 1);
    assert_eq!(state.program.source_text().as_str(), VALID_BLUE);

    // The frame after it runs none.
    let second = process_pending(&mut slot, &mut state, Ok(VALID_RED.to_string()));
    assert!(second.is_none());
    assert_eq!(state.generation, 1);
    assert_eq!(state.program.source_text().as_str(), VALID_BLUE);
}

#[test]
fn burst_of_fifty_saves_reloads_at_least_once_and_at_most_fifty() {
    let mut slot = ReloadSlot::new();
    let mut state = fresh_state();

    for _ in 0..50 {
        slot.notify();
    }
    let mut reloads = 0;
    // Drain over the next fifty frames: the first finds the coalesced
    // notification, the rest find none.
    for _ in 0..50 {
        if process_pending(&mut slot, &mut state, Ok(VALID_BLUE.to_string())).is_some() {
            reloads += 1;
        }
    }
    assert!(reloads >= 1);
    assert!(reloads <= 50);
    assert_eq!(reloads, 1);
    assert_eq!(state.generation, 1);
}

#[test]
fn interleaved_saves_never_exceed_one_reload_each() {
    let mut slot = ReloadSlot::new();
    let mut state = fresh_state();

    let mut reloads = 0;
    for _ in 0..50 {
        slot.notify();
        if process_pending(&mut slot, &mut state, Ok(VALID_BLUE.to_string())).is_some() {
            reloads += 1;
        }
    }
    assert_eq!(reloads, 50);
    assert_eq!(state.generation, 50);
}

#[test]
fn pending_reload_on_unreadable_file_reports_io() {
    let mut slot = ReloadSlot::new();
    let mut state = fresh_state();
    slot.notify();
    let r = process_pending(&mut slot, &mut state, Err("gone".to_string()));
    match r {
        Some(Err(CompileError::Io(m))) => assert_eq!(m, "gone"),
        other => panic!("expected an I/O failure, got {:?}", other.is_some()),
    }
    assert_eq!(state.program.source_text().as_str(), VALID_RED);
}
