//! The trampoline bridge: host closures reached through context tokens.
//!
//! The engine cannot hold a closure. It holds a [`ContextToken`], and hands it
//! back when the event fires. A [`Registry`] owns the closures; a token is the
//! key of a slot in it. A trampoline takes what the engine hands back, finds
//! the closure and calls it with the call's own arguments.
//!
//! There are two trampolines, because the engine returns the token in two
//! ways. For a view event the token is an argument of the call. For a script
//! hook it is not: it was stored in the private-data slot of the function
//! object when that was made, and is read from the invoked object again on
//! every call.
//!
//! A slot lives until it is released. A released token is refused; its closure
//! is never called again.

use vstd::prelude::*;
use crate::handles::{
    ArgumentPointer, ContextToken, ExceptionSlot, ScriptCallArgs, ScriptContext, ScriptObject,
    ScriptValue, ViewHandle,
};

verus! {

/// Why a trampoline refused to call anything.
#[derive(Clone, Copy, Debug, PartialEq, Eq, Structural)]
pub enum BridgeError {
    /// The registry never issued this token.
    UnknownToken,
    /// The closure behind this token has been released.
    Released,
    /// The invoked object carries no token in its private-data slot.
    NoPrivateData,
}

/// A script-callable object as the bridge sees it: its identity and the
/// content of its private-data slot.
#[derive(Clone, Copy, Debug, PartialEq, Eq, Structural)]
pub struct FunctionObject {
    pub object: ScriptObject,
    pub private_data: Option<ContextToken>,
}

/// The word that an empty private-data slot reads as.
pub const EMPTY_SLOT: u64 = 0;

/// The word that stands for `token` in a private-data slot: the token's
/// number plus one, so that it never reads as an empty slot. The one token
/// whose number has no successor has no word.
pub open spec fn slot_word(token: ContextToken) -> Option<u64> {
    if token.0 < u64::MAX {
        Some((token.0 + 1) as u64)
    } else {
        None
    }
}

/// What a private-data slot that reads as `word` holds.
pub open spec fn slot_content(word: u64) -> Option<ContextToken> {
    if word == EMPTY_SLOT {
        None
    } else {
        Some(ContextToken((word - 1) as u64))
    }
}

impl FunctionObject {
    /// The word to store in the private-data slot of an object that is to
    /// carry `token`, or `None` for the one token that has no word.
    pub fn private_word(token: ContextToken) -> (word: Option<u64>)
        ensures
            word == slot_word(token),
    {
        if token.0 < u64::MAX {
            Some(token.0 + 1)
        } else {
            None
        }
    }

    /// The invoked object `object` as the bridge sees it, where its
    /// private-data slot reads as `word`.
    pub fn from_private(object: ScriptObject, word: u64) -> (function: FunctionObject)
        ensures
            function.object == object,
            function.private_data == slot_content(word),
    {
        if word == EMPTY_SLOT {
            FunctionObject { object, private_data: None }
        } else {
            FunctionObject { object, private_data: Some(ContextToken(word - 1)) }
        }
    }
}

/// A token stored in a private-data slot is read back as itself, and is never
/// mistaken for an empty slot; two tokens never share a word.
pub proof fn law_slot_round_trip(token: ContextToken, other: ContextToken)
    requires
        token.0 < u64::MAX,
    ensures
        slot_word(token) matches Some(word) && word != EMPTY_SLOT && slot_content(word) == Some(
            token,
        ),
        slot_content(EMPTY_SLOT) is None,
        other != token ==> slot_word(other) != slot_word(token),
{
}

/// Owns closures of one shape and issues the tokens that find them again.
///
/// A closure never moves to another slot, and a token is never issued twice.
pub struct Registry<F> {
    slots: Vec<Option<F>>,
}

impl<F> Registry<F> {
    /// The slots in the order of issue: the closure, or `None` once released.
    pub closed spec fn slots(&self) -> Seq<Option<F>> {
        self.slots@
    }

    /// What a token leads to.
    pub open spec fn lookup(&self, token: ContextToken) -> Result<F, BridgeError> {
        if token.0 >= self.slots().len() {
            Err(BridgeError::UnknownToken)
        } else {
            match self.slots()[token.0 as int] {
                Some(closure) => Ok(closure),
                None => Err(BridgeError::Released),
            }
        }
    }

    /// What the private-data slot of a function object leads to.
    pub open spec fn lookup_private(&self, function: FunctionObject) -> Result<F, BridgeError> {
        match function.private_data {
            Some(token) => self.lookup(token),
            None => Err(BridgeError::NoPrivateData),
        }
    }

    /// An empty registry.
    pub fn new() -> (registry: Self)
        ensures
            registry.slots() == Seq::<Option<F>>::empty(),
    {
        Registry { slots: Vec::new() }
    }

    /// The number of tokens issued so far.
    pub fn issued(&self) -> (count: usize)
        ensures
            count == self.slots().len(),
    {
        self.slots.len()
    }

    /// Whether `token` leads to a closure.
    pub fn is_live(&self, token: ContextToken) -> (live: bool)
        ensures
            live == (self.lookup(token) is Ok),
    {
        if token.0 >= self.slots.len() as u64 {
            false
        } else {
            self.slots[token.0 as usize].is_some()
        }
    }

    /// Releases the closure behind `token`. Every other slot stays as it is.
    pub fn release(&mut self, token: ContextToken) -> (outcome: Result<(), BridgeError>)
        ensures
            match old(self).lookup(token) {
                Ok(_) => {
                    &&& outcome == Ok::<(), BridgeError>(())
                    &&& final(self).slots() == old(self).slots().update(token.0 as int, None)
                },
                Err(e) => {
                    &&& outcome == Err::<(), BridgeError>(e)
                    &&& final(self).slots() == old(self).slots()
                },
            },
    {
        if token.0 >= self.slots.len() as u64 {
            return Err(BridgeError::UnknownToken);
        }
        let index: usize = token.0 as usize;
        if self.slots[index].is_none() {
            return Err(BridgeError::Released);
        }
        self.slots.set(index, None);
        Ok(())
    }

    /// Stores `closure` in a new slot and issues its token.
    fn insert(&mut self, closure: F) -> (token: ContextToken)
        ensures
            token.0 == old(self).slots().len(),
            final(self).slots() == old(self).slots().push(Some(closure)),
    {
        let token = ContextToken(self.slots.len() as u64);
        self.slots.push(Some(closure));
        token
    }
}

impl<F: Fn(ViewHandle)> Registry<F> {
    /// Every closure held can be called with any view.
    pub open spec fn accepts_view_events(&self) -> bool {
        forall|i: int, view: ViewHandle|
            0 <= i < self.slots().len() && self.slots()[i] is Some ==> #[trigger] call_requires(
                self.slots()[i].unwrap(),
                (view,),
            )
    }
}

impl<
    F: Fn(
        ScriptContext,
        ScriptObject,
        ScriptObject,
        usize,
        ArgumentPointer,
        ExceptionSlot,
    ) -> ScriptValue,
> Registry<F> {
    /// Every closure held can be called with any arguments of a script call.
    pub open spec fn accepts_script_calls(&self) -> bool {
        forall|i: int, args: ScriptCallArgs|
            0 <= i < self.slots().len() && self.slots()[i] is Some ==> #[trigger] call_requires(
                self.slots()[i].unwrap(),
                args,
            )
    }
}

/// Turns a view-event closure into the token to hand to the engine.
///
/// The closure moves into `registry`, where it stays at the same slot until
/// it is released. The function that the engine is to call with the token is
/// [`view_event_trampoline`].
pub fn unpack_closure_view_cb<F: Fn(ViewHandle)>(registry: &mut Registry<F>, closure: F) -> (token:
    ContextToken)
    requires
        old(registry).accepts_view_events(),
        forall|view: ViewHandle| call_requires(closure, (view,)),
    ensures
        final(registry).accepts_view_events(),
        token.0 == old(registry).slots().len(),
        final(registry).slots() == old(registry).slots().push(Some(closure)),
        final(registry).lookup(token) == Ok::<F, BridgeError>(closure),
{
    registry.insert(closure)
}

/// Turns a script-hook closure into the token to store in the private-data
/// slot of the function object.
///
/// The closure moves into `registry`, where it stays at the same slot until
/// it is released. The function that the engine is to bind the object's call
/// to is [`script_hook_trampoline`].
pub fn unpack_closure_hook_cb<
    F: Fn(
        ScriptContext,
        ScriptObject,
        ScriptObject,
        usize,
        ArgumentPointer,
        ExceptionSlot,
    ) -> ScriptValue,
>(registry: &mut Registry<F>, closure: F) -> (token: ContextToken)
    requires
        old(registry).accepts_script_calls(),
        forall|args: ScriptCallArgs| call_requires(closure, args),
    ensures
        final(registry).accepts_script_calls(),
        token.0 == old(registry).slots().len(),
        final(registry).slots() == old(registry).slots().push(Some(closure)),
        final(registry).lookup(token) == Ok::<F, BridgeError>(closure),
{
    registry.insert(closure)
}

/// The trampoline of view events. The engine passes the token back as the
/// first argument of the call.
///
/// Where the token leads to a closure, that closure is called with `view`, and
/// with nothing else. Otherwise nothing is called and the reason is returned.
pub fn view_event_trampoline<F: Fn(ViewHandle)>(
    registry: &Registry<F>,
    token: ContextToken,
    view: ViewHandle,
) -> (outcome: Result<(), BridgeError>)
    requires
        registry.accepts_view_events(),
    ensures
        match registry.lookup(token) {
            Ok(closure) => outcome == Ok::<(), BridgeError>(()) && call_ensures(
                closure,
                (view,),
                (),
            ),
            Err(e) => outcome == Err::<(), BridgeError>(e),
        },
{
    if token.0 >= registry.slots.len() as u64 {
        return Err(BridgeError::UnknownToken);
    }
    match &registry.slots[token.0 as usize] {
        Some(closure) => {
            closure(view);
            Ok(())
        },
        None => Err(BridgeError::Released),
    }
}

/// The trampoline of script hooks. The engine passes no token: it is read
/// from the private-data slot of the invoked `function`.
///
/// Where that slot leads to a closure, the closure is called with the
/// arguments of the script call as they came, and its value is returned.
/// Otherwise nothing is called and the reason is returned.
pub fn script_hook_trampoline<
    F: Fn(
        ScriptContext,
        ScriptObject,
        ScriptObject,
        usize,
        ArgumentPointer,
        ExceptionSlot,
    ) -> ScriptValue,
>(
    registry: &Registry<F>,
    ctx: ScriptContext,
    function: FunctionObject,
    this_object: ScriptObject,
    argument_count: usize,
    arguments: ArgumentPointer,
    exception: ExceptionSlot,
) -> (outcome: Result<ScriptValue, BridgeError>)
    requires
        registry.accepts_script_calls(),
    ensures
        match registry.lookup_private(function) {
            Ok(closure) => outcome matches Ok(value) && call_ensures(
                closure,
                (ctx, function.object, this_object, argument_count, arguments, exception),
                value,
            ),
            Err(e) => outcome == Err::<ScriptValue, BridgeError>(e),
        },
{
    let token = match function.private_data {
        Some(token) => token,
        None => {
            return Err(BridgeError::NoPrivateData);
        },
    };
    if token.0 >= registry.slots.len() as u64 {
        return Err(BridgeError::UnknownToken);
    }
    match &registry.slots[token.0 as usize] {
        Some(closure) => {
            let value = closure(
                ctx,
                function.object,
                this_object,
                argument_count,
                arguments,
                exception,
            );
            Ok(value)
        },
        None => Err(BridgeError::Released),
    }
}

/// Round trip of the bridge: after a closure has been stored under a token,
/// the token leads to that closure and to no other, every token issued before
/// leads to what it led to, and so does the private-data slot of any object
/// that holds one of them.
pub proof fn law_token_round_trip<F>(
    before: Registry<F>,
    after: Registry<F>,
    closure: F,
    token: ContextToken,
    earlier: ContextToken,
)
    requires
        token.0 == before.slots().len(),
        after.slots() == before.slots().push(Some(closure)),
    ensures
        after.lookup(token) == Ok::<F, BridgeError>(closure),
        after.lookup_private(
            FunctionObject { object: ScriptObject(token.0), private_data: Some(token) },
        ) == Ok::<F, BridgeError>(closure),
        before.lookup(token) == Err::<F, BridgeError>(BridgeError::UnknownToken),
        earlier.0 < token.0 ==> after.lookup(earlier) == before.lookup(earlier),
{
}

/// A released token is refused from then on, and every other token leads to
/// what it led to.
pub proof fn law_release_is_final<F>(
    before: Registry<F>,
    after: Registry<F>,
    token: ContextToken,
    other: ContextToken,
)
    requires
        before.lookup(token) is Ok,
        after.slots() == before.slots().update(token.0 as int, None),
    ensures
        after.lookup(token) == Err::<F, BridgeError>(BridgeError::Released),
        other != token ==> after.lookup(other) == before.lookup(other),
{
}

} // verus!
