//! A verified embedding layer for a headless rendering engine.
//!
//! The engine itself lives outside this crate. Every operation here decides
//! which engine requests are due and records them, in order, as
//! [`EngineCall`] values; the embedding program performs them. Host closures
//! handed to the engine are kept in a [`Registry`] and reached through
//! integer context tokens, so that a trampoline never touches a raw address.

pub mod bridge;
pub mod capture;
pub mod engine;
pub mod facade;
pub mod handles;
pub mod helpers;
pub mod log;
pub mod text;

pub use bridge::{
    script_hook_trampoline, unpack_closure_hook_cb, unpack_closure_view_cb, view_event_trampoline,
    BridgeError, FunctionObject, Registry,
};
pub use capture::{append_frame, assemble_frames, image_bytes, plan_capture, row_bytes, CapturePlan};
pub use engine::{Config, EngineCall, Tunable};
pub use facade::{FacadeError, Phase, Ultralight};
pub use handles::{
    ArgumentPointer, ContextToken, EngineHandle, ExceptionSlot, ScriptContext, ScriptObject,
    ScriptValue, ViewHandle,
};
pub use log::{log_forward_cb, LogLevel, LogRecord, LogSource};
