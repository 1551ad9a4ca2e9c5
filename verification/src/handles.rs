//! Opaque identifiers for the things the engine owns.
//!
//! A handle is a number that names an engine-side resource. The library never
//! looks inside one; it only stores, compares and passes them on.

use vstd::prelude::*;

verus! {

/// Names one renderer instance.
#[derive(Clone, Copy, Debug, PartialEq, Eq, Structural)]
pub struct EngineHandle(pub u64);

/// Names one renderable page surface.
#[derive(Clone, Copy, Debug, PartialEq, Eq, Structural)]
pub struct ViewHandle(pub u64);

/// Names the script execution context of a page.
#[derive(Clone, Copy, Debug, PartialEq, Eq, Structural)]
pub struct ScriptContext(pub u64);

/// Names an object of the page's script object graph.
#[derive(Clone, Copy, Debug, PartialEq, Eq, Structural)]
pub struct ScriptObject(pub u64);

/// Names a script value.
#[derive(Clone, Copy, Debug, PartialEq, Eq, Structural)]
pub struct ScriptValue(pub u64);

/// The address of the argument array of one script call.
#[derive(Clone, Copy, Debug, PartialEq, Eq, Structural)]
pub struct ArgumentPointer(pub u64);

/// The address of the slot in which a script call may leave an exception.
#[derive(Clone, Copy, Debug, PartialEq, Eq, Structural)]
pub struct ExceptionSlot(pub u64);

/// The opaque value threaded through the engine to find a closure again.
///
/// A token is the key of a slot in a [`crate::bridge::Registry`].
#[derive(Clone, Copy, Debug, PartialEq, Eq, Structural)]
pub struct ContextToken(pub u64);

/// The arguments of one script call, in the order in which a script hook
/// takes them: context, invoked function, `this`, argument count, argument
/// array, exception slot.
pub type ScriptCallArgs = (
    ScriptContext,
    ScriptObject,
    ScriptObject,
    usize,
    ArgumentPointer,
    ExceptionSlot,
);

} // verus!
