//! Script operations on a given view: each checks its text and states the
//! engine request that carries it out.

use vstd::prelude::*;
use vstd::string::*;
use crate::bridge::{unpack_closure_hook_cb, BridgeError, FunctionObject, Registry};
use crate::engine::{EngineCall, EngineCallView};
use crate::facade::FacadeError;
use crate::handles::{
    ArgumentPointer, ContextToken, ExceptionSlot, ScriptCallArgs, ScriptContext, ScriptObject,
    ScriptValue, ViewHandle,
};
use crate::text::{contains_nul, has_nul};

verus! {

/// The function object that a hook stored under `token` is installed as: the
/// registry key is its identity, and its private-data slot holds the token.
pub open spec fn installed_object(token: ContextToken) -> FunctionObject {
    FunctionObject { object: ScriptObject(token.0), private_data: Some(token) }
}

/// Installs `hook` as a native function that script can call.
///
/// The hook moves into `hooks`; the request returned defines a class named
/// `name` that can only be called as a function, and makes one object of it
/// whose private-data slot holds the hook's token. The object is returned. It
/// is not yet reachable from script: binding it to a global name is a separate
/// step, [`set_js_object_property`].
///
/// A name with a zero byte in it is refused: nothing is stored and no request
/// is made. Each call defines a class of its own, which is never released.
pub fn create_js_function<
    F: Fn(
        ScriptContext,
        ScriptObject,
        ScriptObject,
        usize,
        ArgumentPointer,
        ExceptionSlot,
    ) -> ScriptValue,
>(view: ViewHandle, hooks: &mut Registry<F>, name: &str, hook: F) -> (outcome: Result<
    (FunctionObject, EngineCall),
    FacadeError,
>)
    requires
        name@.len() > 0,
        old(hooks).accepts_script_calls(),
        forall|args: ScriptCallArgs| call_requires(hook, args),
    ensures
        final(hooks).accepts_script_calls(),
        has_nul(name.spec_bytes()) ==> outcome == Err::<(FunctionObject, EngineCall), FacadeError>(
            FacadeError::EmbeddedNul,
        ) && final(hooks).slots() == old(hooks).slots(),
        !has_nul(name.spec_bytes()) ==> (outcome matches Ok((function, call)) && {
            let token = ContextToken(old(hooks).slots().len() as u64);
            &&& function == installed_object(token)
            &&& final(hooks).slots() == old(hooks).slots().push(Some(hook))
            &&& final(hooks).lookup_private(function) == Ok::<F, BridgeError>(hook)
            &&& call@ == (EngineCallView::CreateFunction {
                view,
                name: name@,
                object: function.object,
                token,
            })
        }),
{
    if contains_nul(name) {
        return Err(FacadeError::EmbeddedNul);
    }
    let token = unpack_closure_hook_cb(hooks, hook);
    let function = FunctionObject { object: ScriptObject(token.0), private_data: Some(token) };
    let call = EngineCall::CreateFunction {
        view,
        name: name.to_owned(),
        object: function.object,
        token,
    };
    Ok((function, call))
}

/// States the request that binds `object` to the global name `name` of the
/// view's page, which makes it reachable from script.
///
/// A name with a zero byte in it is refused.
pub fn set_js_object_property(view: ViewHandle, name: &str, object: ScriptObject) -> (outcome:
    Result<EngineCall, FacadeError>)
    ensures
        has_nul(name.spec_bytes()) ==> outcome == Err::<EngineCall, FacadeError>(
            FacadeError::EmbeddedNul,
        ),
        !has_nul(name.spec_bytes()) ==> (outcome matches Ok(call) && call@ == (
        EngineCallView::SetGlobalProperty { view, name: name@, object })),
{
    if contains_nul(name) {
        return Err(FacadeError::EmbeddedNul);
    }
    Ok(EngineCall::SetGlobalProperty { view, name: name.to_owned(), object })
}

/// States the request that evaluates `script` in the view's page.
///
/// Script text with a zero byte in it is refused.
pub fn evaluate_script(view: ViewHandle, script: &str) -> (outcome: Result<
    EngineCall,
    FacadeError,
>)
    ensures
        has_nul(script.spec_bytes()) ==> outcome == Err::<EngineCall, FacadeError>(
            FacadeError::EmbeddedNul,
        ),
        !has_nul(script.spec_bytes()) ==> (outcome matches Ok(call) && call@ == (
        EngineCallView::EvaluateScript { view, script: script@ })),
{
    if contains_nul(script) {
        return Err(FacadeError::EmbeddedNul);
    }
    Ok(EngineCall::EvaluateScript { view, script: script.to_owned() })
}

} // verus!
