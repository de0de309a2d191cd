//! The callback protocol: how the engine calls native logic, and how that
//! logic's outcome goes back.
//!
//! The engine calls a native entry point with a context, the function object,
//! the `this` object, an argument count, a pointer to the arguments and a
//! pointer to its exception slot. The entry point presents these, in that
//! order, as a context, two objects and a sequence of values; it then hands
//! back a result handle, and writes the exception slot only when the logic
//! failed. The result handle is never null: a failed call returns `undefined`.
use vstd::prelude::*;
use crate::abi::{settles_as, Completion, EngineCall, EngineReply};
use crate::context::JSContext;
use crate::handle::OpaqueJSValue;
use crate::value::{JSObject, JSValue};

verus! {

/// How many arguments an entry point may read behind the argument pointer
/// (given as an address): none when the count is zero or the pointer null.
pub fn readable_arguments(argument_count: usize, arguments: usize) -> (r: usize)
    ensures
        r == (if argument_count == 0 || arguments == 0 { 0 } else { argument_count }),
{
    if argument_count == 0 || arguments == 0 {
        0
    } else {
        argument_count
    }
}

/// The values of a call's arguments, in order: the first `argument_count`
/// of the handles read, and never more than were read.
pub fn marshal_arguments(argument_count: usize, raw: &[OpaqueJSValue]) -> (r: Vec<JSValue>)
    ensures
        r@.len() == (if argument_count <= raw@.len() { argument_count as int } else { raw@.len() as int }),
        forall|i: int| 0 <= i < r@.len() ==> #[trigger] r@[i]@ == raw@[i],
{
    let n: usize = if argument_count <= raw.len() {
        argument_count
    } else {
        raw.len()
    };
    let mut out: Vec<JSValue> = Vec::new();
    let mut i: usize = 0;
    while i < n
        invariant
            n <= raw@.len(),
            i <= n,
            out@.len() == i,
            forall|j: int| 0 <= j < i ==> #[trigger] out@[j]@ == raw@[j],
        decreases n - i,
    {
        out.push(JSValue::from(raw[i]));
        i = i + 1;
    }
    out
}

/// A call of native logic by the engine, marshaled: context, function,
/// `this`, arguments.
#[derive(Debug)]
pub struct Invocation {
    pub context: JSContext,
    pub function: JSObject,
    pub this: JSObject,
    pub arguments: Vec<JSValue>,
}

/// Marshals what the engine passed to an entry point. `context` is the
/// engine's context adopted into the machine it runs in (see
/// `JSContext::from`), never a new machine.
pub fn marshal_invocation(
    context: JSContext,
    function: OpaqueJSValue,
    this: OpaqueJSValue,
    argument_count: usize,
    raw: &[OpaqueJSValue],
) -> (r: Invocation)
    ensures
        r.context == context,
        r.function.handle() == function,
        r.this.handle() == this,
        r.arguments@.len() == (if argument_count <= raw@.len() { argument_count as int } else { raw@.len() as int }),
        forall|i: int| 0 <= i < r.arguments@.len() ==> #[trigger] r.arguments@[i]@ == raw@[i],
{
    let arguments = marshal_arguments(argument_count, raw);
    Invocation { context, function: JSObject::from(function), this: JSObject::from(this), arguments }
}

/// A constructor hook's call, marshaled: the protocol without `this`.
#[derive(Debug)]
pub struct Construction {
    pub context: JSContext,
    pub constructor: JSObject,
    pub arguments: Vec<JSValue>,
}

/// Marshals what the engine passed to a constructor hook.
pub fn marshal_construction(
    context: JSContext,
    constructor: OpaqueJSValue,
    argument_count: usize,
    raw: &[OpaqueJSValue],
) -> (r: Construction)
    ensures
        r.context == context,
        r.constructor.handle() == constructor,
        r.arguments@.len() == (if argument_count <= raw@.len() { argument_count as int } else { raw@.len() as int }),
        forall|i: int| 0 <= i < r.arguments@.len() ==> #[trigger] r.arguments@[i]@ == raw@[i],
{
    let arguments = marshal_arguments(argument_count, raw);
    Construction { context, constructor: JSObject::from(constructor), arguments }
}

/// How native logic ended.
#[derive(Clone, Copy, Debug)]
pub enum HostOutcome {
    /// It returned this value.
    Returned(JSValue),
    /// It failed with this value, to be thrown in the engine.
    Threw(JSValue),
    /// It failed without a value (it panicked); a generic engine error
    /// stands in for it.
    Faulted,
}

/// What an entry point hands back: its result handle, and the value to write
/// into the exception slot, if any.
#[derive(Clone, Copy, Debug, PartialEq, Eq, Structural)]
pub struct CallbackReturn {
    pub result: OpaqueJSValue,
    pub exception: Option<OpaqueJSValue>,
}

/// What a call of native logic hands back, given the `undefined` value of the
/// context and the generic error that stands for a fault.
pub open spec fn invocation_return(outcome: HostOutcome, undefined: JSValue, fault: JSValue) -> CallbackReturn {
    match outcome {
        HostOutcome::Returned(v) => CallbackReturn { result: v@, exception: None },
        HostOutcome::Threw(e) => CallbackReturn { result: undefined@, exception: Some(e@) },
        HostOutcome::Faulted => CallbackReturn { result: undefined@, exception: Some(fault@) },
    }
}

/// Turns the outcome of native logic into the entry point's return: the
/// result on success; else `undefined`, with the error in the exception slot.
pub fn complete_invocation(outcome: HostOutcome, undefined: JSValue, fault: JSValue) -> (r: CallbackReturn)
    ensures
        r == invocation_return(outcome, undefined, fault),
{
    match outcome {
        HostOutcome::Returned(v) => CallbackReturn { result: v.get_ref(), exception: None },
        HostOutcome::Threw(e) => CallbackReturn { result: undefined.get_ref(), exception: Some(e.get_ref()) },
        HostOutcome::Faulted => CallbackReturn { result: undefined.get_ref(), exception: Some(fault.get_ref()) },
    }
}

/// An error that native logic fails with is what the engine call that
/// triggered it ends with: the entry point leaves it in the exception slot,
/// and a reply with that slot settles into that very value, whatever the call
/// and whatever result came beside it.
pub proof fn lemma_thrown_error_reaches_caller(
    error: JSValue,
    undefined: JSValue,
    fault: JSValue,
    call: EngineCall,
    result: OpaqueJSValue,
    r: Completion,
)
    requires
        error@.addr != 0,
        settles_as(
            call,
            EngineReply {
                result,
                exception: invocation_return(HostOutcome::Threw(error), undefined, fault).exception->0,
            },
            r,
        ),
    ensures
        invocation_return(HostOutcome::Threw(error), undefined, fault).result == undefined@,
        r matches Completion::Thrown(e) && e@ == error@,
{
}

/// Turns the outcome of a constructor hook into its return: the constructed
/// object is the constructor object itself; an error goes into the exception
/// slot.
pub fn complete_construction(constructor: &JSObject, outcome: HostOutcome, fault: JSValue) -> (r: CallbackReturn)
    ensures
        r.result == constructor.handle(),
        r.exception == (match outcome {
            HostOutcome::Returned(_) => None,
            HostOutcome::Threw(e) => Some(e@),
            HostOutcome::Faulted => Some(fault@),
        }),
{
    let exception = match outcome {
        HostOutcome::Returned(_) => None,
        HostOutcome::Threw(e) => Some(e.get_ref()),
        HostOutcome::Faulted => Some(fault.get_ref()),
    };
    CallbackReturn { result: constructor.get_ref(), exception }
}

} // verus!
