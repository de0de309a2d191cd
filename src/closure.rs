//! Native functions that capture host state.
//!
//! The engine's native signature has no slot for user data. A capturing
//! function is therefore registered in a side table under a key, and the
//! engine sees one fixed entry point bound (with the engine's own `bind`) to
//! that key as its first argument. When called, the entry point takes the key
//! off the front of its arguments, looks the closure up, and hands it the
//! rest. Entries stay in the table for as long as the table lives: a closure
//! handed to the engine is never freed while the engine may still call it.
use vstd::prelude::*;
use crate::abi::EngineCall;
use crate::context::JSContext;
use crate::object::this_handle;
use crate::value::{handles_of, JSObject, JSValue};

verus! {

/// The number of closures one table can hold: keys cross the engine as
/// numbers and stay `u32`.
pub const MAX_CLOSURES: usize = 4294967295;

/// A side table of closures, keyed by their place in it.
pub struct ClosureTable<F> {
    entries: Vec<F>,
}

impl<F> View for ClosureTable<F> {
    type V = Seq<F>;

    closed spec fn view(&self) -> Seq<F> {
        self.entries@
    }
}

impl<F> ClosureTable<F> {
    pub fn new() -> (r: Self)
        ensures
            r@ == Seq::<F>::empty(),
    {
        ClosureTable { entries: Vec::new() }
    }

    pub fn len(&self) -> (r: usize)
        ensures
            r == self@.len(),
    {
        self.entries.len()
    }

    /// Registers `f` under the next key, unless the table is full.
    pub fn register(&mut self, f: F) -> (r: Option<u32>)
        ensures
            old(self)@.len() < MAX_CLOSURES ==> r == Some(old(self)@.len() as u32) && final(self)@ == old(
                self,
            )@.push(f),
            old(self)@.len() >= MAX_CLOSURES ==> r is None && final(self)@ == old(self)@,
    {
        let n = self.entries.len();
        if n < MAX_CLOSURES {
            self.entries.push(f);
            Some(n as u32)
        } else {
            None
        }
    }

    /// The closure registered under `key`, if one is.
    pub fn get(&self, key: u32) -> (r: Option<&F>)
        ensures
            match r {
                Some(f) => key < self@.len() && *f == self@[key as int],
                None => key >= self@.len(),
            },
    {
        if (key as usize) < self.entries.len() {
            Some(&self.entries[key as usize])
        } else {
            None
        }
    }
}

/// The key an entry point was bound to and the arguments meant for the
/// closure, if any argument came at all.
pub open spec fn split_bound(args: Seq<JSValue>) -> Option<(JSValue, Seq<JSValue>)> {
    if args.len() == 0 {
        None
    } else {
        Some((args[0], args.subrange(1, args.len() as int)))
    }
}

/// Takes the bound key off the front of an entry point's arguments.
pub fn split_bound_arguments(args: &[JSValue]) -> (r: Option<(JSValue, Vec<JSValue>)>)
    ensures
        match split_bound(args@) {
            Some((k, rest)) => r matches Some((key, user)) && key == k && user@ == rest,
            None => r is None,
        },
{
    if args.len() == 0 {
        return None;
    }
    let mut rest: Vec<JSValue> = Vec::new();
    let mut i: usize = 1;
    while i < args.len()
        invariant
            1 <= i <= args@.len(),
            rest@ == args@.subrange(1, i as int),
        decreases args@.len() - i,
    {
        rest.push(args[i]);
        i = i + 1;
        assert(rest@ == args@.subrange(1, i as int));
    }
    Some((args[0], rest))
}

/// The call of `bind` that fixes `key_value` as the first argument of the
/// entry point `callback`, with `undefined` as its `this`.
pub fn bind_call(
    context: &JSContext,
    bind: &JSObject,
    callback: &JSObject,
    undefined: JSValue,
    key_value: JSValue,
) -> (r: EngineCall)
    ensures
        r matches EngineCall::CallAsFunction { context: c, function, this, arguments }
            && c == context.inner && function == bind.handle() && this == this_handle(Some(callback))
            && arguments@ == handles_of(seq![undefined, key_value]),
{
    let args = [undefined, key_value];
    let r = bind.call_as_function(context, Some(callback), &args);
    assert(args@ == seq![undefined, key_value]);
    r
}

/// The arguments a bound entry point receives are the key followed by those
/// of the call: the closure gets exactly the call's arguments, in order.
pub proof fn lemma_bound_arguments_reach_closure(key: JSValue, call_args: Seq<JSValue>)
    ensures
        split_bound(seq![key] + call_args) == Some((key, call_args)),
{
    assert((seq![key] + call_args).subrange(1, call_args.len() + 1int) == call_args);
}

} // verus!
