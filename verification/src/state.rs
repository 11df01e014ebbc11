//! The render-state machine: one active program, one uniform record,
//! and the exact transition for every event the frame driver forwards.
//!
//! The state is never pipeline-less: it is constructed from a program
//! that passed the whole compile pipeline, and a failed reload leaves
//! the active program untouched.  All transitions run on the frame
//! driver's thread; the watch thread only ever reaches this state
//! through the coalescing slot in [`crate::watch`].

use vstd::prelude::*;

use crate::shader::CompileError;
use crate::shader::CompiledProgram;
use crate::shader::compile_from_read;
use crate::shader::reload_accepts;
use crate::shader::wgsl_parses;
use crate::shader::wgsl_validates;
use crate::uniforms::Frac;
use crate::uniforms::Uniforms;
use crate::uniforms::ndc_x;
use crate::uniforms::ndc_y;

verus! {

/// The one draw call a frame issues: a full-screen triangle, drawn
/// once, with the uniform buffer bound at slot 0.
#[derive(Clone, Copy, Debug, PartialEq, Eq, Structural)]
pub struct DrawCall {
    pub vertex_count: u32,
    pub instance_count: u32,
    pub uniform_bind_slot: u32,
}

impl DrawCall {
    /// Every frame issues this same call; only the uniform contents
    /// change from frame to frame.
    pub open spec fn spec_fixed() -> DrawCall {
        DrawCall { vertex_count: 3, instance_count: 1, uniform_bind_slot: 0 }
    }
}

/// What a frame tick asks the backend to do: upload this uniform
/// record, then issue this draw call.
#[derive(Clone, Copy, Debug, PartialEq, Eq, Structural)]
pub struct FrameOutput {
    pub uniforms: Uniforms,
    pub draw: DrawCall,
}

/// Why the backend could not complete a draw, as the frame driver
/// observed it on acquiring the draw target.
#[derive(Clone, Copy, Debug, PartialEq, Eq, Structural)]
pub enum DrawFailure {
    /// Acquiring the next frame timed out.
    Timeout,
    /// The window is occluded; there is nothing to present to.
    Occluded,
    /// The draw target no longer matches the surface configuration.
    Outdated,
    /// The surface was lost and must be configured anew.
    Lost,
    /// The device is out of memory.
    OutOfMemory,
    /// The backend rejected the acquisition for an internal reason.
    Rejected,
}

/// The one recovery action the frame handler takes for a draw failure.
#[derive(Clone, Copy, Debug, PartialEq, Eq, Structural)]
pub enum DrawRecovery {
    /// Skip this frame; try again on the next tick.
    RetryNextFrame,
    /// Reconfigure the surface, then try again on the next tick.
    Reconfigure,
    /// Not recoverable in the loop; the process must end.
    Fatal,
}

/// Decide, once, how the frame loop answers each draw failure: a
/// timeout or an occluded window passes; an outdated or lost surface is
/// reconfigured; exhausted device memory ends the process.  A rejected
/// acquisition is retried, since the target itself may still return.
pub fn classify_draw_failure(failure: DrawFailure) -> (r: DrawRecovery)
    ensures
        r == classify_draw_failure_spec(failure),
{
    match failure {
        DrawFailure::Timeout => DrawRecovery::RetryNextFrame,
        DrawFailure::Occluded => DrawRecovery::RetryNextFrame,
        DrawFailure::Outdated => DrawRecovery::Reconfigure,
        DrawFailure::Lost => DrawRecovery::Reconfigure,
        DrawFailure::OutOfMemory => DrawRecovery::Fatal,
        DrawFailure::Rejected => DrawRecovery::RetryNextFrame,
    }
}

pub open spec fn classify_draw_failure_spec(failure: DrawFailure) -> DrawRecovery {
    match failure {
        DrawFailure::Timeout => DrawRecovery::RetryNextFrame,
        DrawFailure::Occluded => DrawRecovery::RetryNextFrame,
        DrawFailure::Outdated => DrawRecovery::Reconfigure,
        DrawFailure::Lost => DrawRecovery::Reconfigure,
        DrawFailure::OutOfMemory => DrawRecovery::Fatal,
        DrawFailure::Rejected => DrawRecovery::RetryNextFrame,
    }
}

/// A window event, reduced to the plain values the state machine reads.
#[derive(Clone, Copy, Debug, PartialEq, Eq, Structural)]
pub enum WindowInput {
    /// The user asked the window to close.
    CloseRequested,
    /// The user pressed the escape key.
    EscapePressed,
    /// The drawable size changed to `width` by `height` pixels.
    Resized { width: u32, height: u32 },
    /// The pointer moved to `(px, py)` inside a viewport of
    /// `(view_w, view_h)` pixels.
    PointerMoved { px: u32, py: u32, view_w: u32, view_h: u32 },
    /// Any other window event; the state machine ignores it.
    Other,
}

/// What the frame driver does after a window event is applied.
#[derive(Clone, Copy, Debug, PartialEq, Eq, Structural)]
pub enum LoopDirective {
    /// Keep running; nothing else to do.
    Continue,
    /// Keep running, and reconfigure the surface to the new size first.
    Reconfigure,
    /// Leave the event loop.
    Exit,
}

/// The persistent state of the render loop: the one active program, the
/// uniform record the next frame will upload, and the count of
/// successful program swaps.
#[derive(Debug)]
pub struct RenderState {
    pub program: CompiledProgram,
    pub uniforms: Uniforms,
    pub generation: u64,
}

/// How a completed reload relates the state before it, the state after
/// it, the file read it consumed and the verdict it returned: accepted
/// exactly when the read succeeded and the text passed both compile
/// steps, the program swapped on acceptance and untouched otherwise,
/// and one error variant for each way the pipeline rejects.
pub open spec fn reload_transition(
    pre: RenderState,
    post: RenderState,
    read: Result<String, String>,
    r: Result<(), CompileError>,
) -> bool {
    &&& post.uniforms == pre.uniforms
    &&& (r is Ok <==> reload_accepts(read))
    &&& (r is Ok ==> (read matches Ok(t) && post.program@ == t@ && post.generation
        == pre.generation + 1))
    &&& (r is Err ==> (post.program == pre.program && post.generation == pre.generation))
    &&& (r matches Err(e) ==> (e matches CompileError::Io(_) <==> read is Err))
    &&& (r matches Err(e) ==> (e matches CompileError::Parse(_) <==> (read matches Ok(t)
        && !wgsl_parses(t@))))
    &&& (r matches Err(e) ==> (e matches CompileError::Validation(_) <==> (read matches Ok(t)
        && wgsl_parses(t@) && !wgsl_validates(t@))))
}

impl RenderState {
    /// The state is well-formed while its active program passed both
    /// compile steps and its uniform fractions carry positive
    /// denominators.  Every transition preserves this.
    pub open spec fn inv(&self) -> bool {
        self.program.wf() && self.uniforms.wf()
    }

    /// Wrap an already compiled program into a fresh state: the given
    /// drawable size, no elapsed time, pointer at the center, no swaps
    /// yet.
    pub fn new(program: CompiledProgram, width: u32, height: u32) -> (s: RenderState)
        requires
            program.wf(),
        ensures
            s.inv(),
            s.program == program,
            s.uniforms == Uniforms::initial_spec(width, height),
            s.generation == 0,
    {
        RenderState { program, uniforms: Uniforms::initial(width, height), generation: 0 }
    }

    /// The startup path: compile the first shader from the file read the
    /// caller performed, and construct the state only on success.  A
    /// failure here constructs nothing — startup treats it as fatal —
    /// and reports which compile step rejected.
    pub fn start(read: Result<String, String>, width: u32, height: u32) -> (r: Result<
        RenderState,
        CompileError,
    >)
        ensures
            r is Ok <==> reload_accepts(read),
            r matches Ok(s) ==> (s.inv() && (read matches Ok(t) && s.program@ == t@) && s.uniforms
                == Uniforms::initial_spec(width, height) && s.generation == 0),
            r matches Err(e) ==> (e matches CompileError::Io(_) <==> read is Err),
            r matches Err(e) ==> (e matches CompileError::Parse(_) <==> (read matches Ok(t)
                && !wgsl_parses(t@))),
            r matches Err(e) ==> (e matches CompileError::Validation(_) <==> (read matches Ok(t)
                && wgsl_parses(t@) && !wgsl_validates(t@))),
    {
        match compile_from_read(read) {
            Ok(program) => Ok(RenderState::new(program, width, height)),
            Err(e) => Err(e),
        }
    }

    /// Apply a resize.  A zero-area size is a transient minimize: the
    /// state, its resolution included, is left exactly as it was and no
    /// reconfiguration is requested.  Otherwise the resolution follows
    /// the new size, nothing else changes, and the caller reconfigures
    /// the surface.  Applying the same size twice is idempotent.
    pub fn on_resize(&mut self, width: u32, height: u32) -> (reconfigure: bool)
        requires
            old(self).inv(),
        ensures
            final(self).inv(),
            reconfigure == (width > 0 && height > 0),
            !reconfigure ==> *final(self) == *old(self),
            reconfigure ==> *final(self) == (RenderState {
                uniforms: Uniforms { width, height, ..old(self).uniforms },
                ..*old(self)
            }),
    {
        if width > 0 && height > 0 {
            self.uniforms.width = width;
            self.uniforms.height = height;
            true
        } else {
            false
        }
    }

    /// Apply a pointer move: the pointer's normalized device
    /// coordinates become exactly `(2 px - w) / w` and `(h - 2 py) / h`,
    /// so the left and top edges map to -1 and +1 and the center of the
    /// viewport maps to 0.  The third component stays zero.
    pub fn on_pointer_move(&mut self, px: u32, py: u32, view_w: u32, view_h: u32)
        requires
            old(self).inv(),
            view_w > 0,
            view_h > 0,
        ensures
            final(self).inv(),
            final(self).uniforms.pointer_x == ndc_x(px, view_w),
            final(self).uniforms.pointer_y == ndc_y(py, view_h),
            final(self).uniforms.pointer_z == Frac::zero_spec(),
            final(self).uniforms.width == old(self).uniforms.width,
            final(self).uniforms.height == old(self).uniforms.height,
            final(self).uniforms.elapsed_micros == old(self).uniforms.elapsed_micros,
            final(self).program == old(self).program,
            final(self).generation == old(self).generation,
    {
        let w: i64 = view_w as i64;
        let h: i64 = view_h as i64;
        self.uniforms.pointer_x = Frac { num: 2 * (px as i64) - w, den: w };
        self.uniforms.pointer_y = Frac { num: h - 2 * (py as i64), den: h };
        self.uniforms.pointer_z = Frac::zero();
    }

    /// Apply a frame tick: record the elapsed time, then hand back the
    /// full uniform record to upload and the fixed draw call — three
    /// vertices, one instance, the uniform buffer at slot 0.  Nothing
    /// else in the state moves.
    pub fn on_frame(&mut self, elapsed_micros: u64) -> (out: FrameOutput)
        requires
            old(self).inv(),
        ensures
            final(self).inv(),
            *final(self) == (RenderState {
                uniforms: Uniforms { elapsed_micros, ..old(self).uniforms },
                ..*old(self)
            }),
            out.uniforms == final(self).uniforms,
            out.draw == DrawCall::spec_fixed(),
    {
        self.uniforms.elapsed_micros = elapsed_micros;
        FrameOutput {
            uniforms: self.uniforms,
            draw: DrawCall { vertex_count: 3, instance_count: 1, uniform_bind_slot: 0 },
        }
    }

    /// Install a program that already passed the whole compile
    /// pipeline: it becomes the active program and the swap count moves
    /// up by one.  The uniform record is untouched.
    pub fn install(&mut self, program: CompiledProgram)
        requires
            old(self).inv(),
            program.wf(),
            old(self).generation < u64::MAX,
        ensures
            final(self).inv(),
            final(self).program == program,
            final(self).generation == old(self).generation + 1,
            final(self).uniforms == old(self).uniforms,
    {
        self.program = program;
        self.generation = self.generation + 1;
    }

    /// Apply a reload whose file read the caller performed: compile the
    /// text and swap the active program on success; on any failure —
    /// unreadable file, rejected parse, rejected validation — keep the
    /// active program exactly as it was and return the diagnostic.  A
    /// broken edit never leaves the state without a usable program.
    pub fn on_reload(&mut self, read: Result<String, String>) -> (r: Result<(), CompileError>)
        requires
            old(self).inv(),
            old(self).generation < u64::MAX,
        ensures
            final(self).inv(),
            reload_transition(*old(self), *final(self), read, r),
    {
        match compile_from_read(read) {
            Ok(program) => {
                self.install(program);
                Ok(())
            },
            Err(e) => Err(e),
        }
    }

    /// Apply one window event and say what the frame driver does next:
    /// a close request or the escape key ends the loop; a resize follows
    /// the resize rule and asks for reconfiguration exactly when it took
    /// effect; a pointer move inside a zero-area viewport is ignored,
    /// any other follows the pointer rule; everything else passes.
    pub fn on_window_event(&mut self, event: WindowInput) -> (d: LoopDirective)
        requires
            old(self).inv(),
        ensures
            final(self).inv(),
            match event {
                WindowInput::CloseRequested => d == LoopDirective::Exit && *final(self)
                    == *old(self),
                WindowInput::EscapePressed => d == LoopDirective::Exit && *final(self) == *old(self),
                WindowInput::Resized { width, height } => if width > 0 && height > 0 {
                    d == LoopDirective::Reconfigure && *final(self) == (RenderState {
                        uniforms: Uniforms { width, height, ..old(self).uniforms },
                        ..*old(self)
                    })
                } else {
                    d == LoopDirective::Continue && *final(self) == *old(self)
                },
                WindowInput::PointerMoved { px, py, view_w, view_h } => if view_w > 0 && view_h
                    > 0 {
                    d == LoopDirective::Continue && *final(self) == (RenderState {
                        uniforms: Uniforms {
                            pointer_x: ndc_x(px, view_w),
                            pointer_y: ndc_y(py, view_h),
                            pointer_z: Frac::zero_spec(),
                            ..old(self).uniforms
                        },
                        ..*old(self)
                    })
                } else {
                    d == LoopDirective::Continue && *final(self) == *old(self)
                },
                WindowInput::Other => d == LoopDirective::Continue && *final(self) == *old(self),
            },
    {
        match event {
            WindowInput::CloseRequested => LoopDirective::Exit,
            WindowInput::EscapePressed => LoopDirective::Exit,
            WindowInput::Resized { width, height } => {
                if self.on_resize(width, height) {
                    LoopDirective::Reconfigure
                } else {
                    LoopDirective::Continue
                }
            },
            WindowInput::PointerMoved { px, py, view_w, view_h } => {
                if view_w > 0 && view_h > 0 {
                    self.on_pointer_move(px, py, view_w, view_h);
                }
                LoopDirective::Continue
            },
            WindowInput::Other => LoopDirective::Continue,
        }
    }
}

} // verus!
