//! Live-reload engine for a single-pass fragment-shader previewer.
//!
//! The crate holds the logic of the previewer that is worth stating and
//! proving: the parse/validate pipeline for the user's fragment shader
//! ([`shader`]), the per-frame uniform record and its exact update rules
//! ([`uniforms`]), the render-state machine that applies resize, pointer,
//! frame and reload transitions ([`state`]), and the coalescing
//! notification slot that bridges the file-watch thread and the frame
//! loop ([`watch`]).  Window, surface and device plumbing stay outside:
//! the frame driver hands plain values in and carries plain decisions out.

pub mod shader;
pub mod state;
pub mod uniforms;
pub mod watch;
