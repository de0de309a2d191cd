//! The calls the host makes into the engine, and how their replies settle.
//!
//! Each fallible call of the engine's C interface takes an exception slot as
//! an out-parameter. The reply of such a call is its result handle and what
//! was left in that slot. A reply settles into exactly one outcome, and an
//! exception in the slot always takes precedence over a result, whatever that
//! result looks like.
use vstd::prelude::*;
use crate::handle::{OpaqueJSContext, OpaqueJSValue};
use crate::value::JSValue;

verus! {

/// A call into the engine, with its arguments marshaled to handles and bytes.
#[derive(Clone, Debug)]
pub enum EngineCall {
    /// Runs `script` (NUL-terminated UTF-8) in `context`.
    EvaluateScript { context: OpaqueJSContext, script: Vec<u8>, starting_line: i32 },
    /// Calls `function` with `this` (null for none) and `arguments`.
    CallAsFunction {
        context: OpaqueJSContext,
        function: OpaqueJSValue,
        this: OpaqueJSValue,
        arguments: Vec<OpaqueJSValue>,
    },
    /// Calls `constructor` as with `new`.
    CallAsConstructor { context: OpaqueJSContext, constructor: OpaqueJSValue, arguments: Vec<OpaqueJSValue> },
    /// Makes an array of `elements`.
    MakeArray { context: OpaqueJSContext, elements: Vec<OpaqueJSValue> },
    /// Reads the property `name` (NUL-terminated UTF-8) of `object`.
    GetProperty { context: OpaqueJSContext, object: OpaqueJSValue, name: Vec<u8> },
    /// Writes `value` into the property `name` of `object`.
    SetProperty {
        context: OpaqueJSContext,
        object: OpaqueJSValue,
        name: Vec<u8>,
        value: OpaqueJSValue,
        attributes: u32,
    },
    /// Deletes the property `name` of `object`.
    DeleteProperty { context: OpaqueJSContext, object: OpaqueJSValue, name: Vec<u8> },
    /// Reads the element at `index` of `object`.
    GetPropertyAtIndex { context: OpaqueJSContext, object: OpaqueJSValue, index: u32 },
    /// Writes `value` into the element at `index` of `object`.
    SetPropertyAtIndex { context: OpaqueJSContext, object: OpaqueJSValue, index: u32, value: OpaqueJSValue },
    /// Makes a `Uint8Array` over `length` bytes that the host lends.
    MakeTypedArrayWithBytes { context: OpaqueJSContext, length: usize },
    /// Makes a `Uint8Array` over the array buffer `buffer`.
    MakeTypedArrayWithArrayBuffer { context: OpaqueJSContext, buffer: OpaqueJSValue },
}

impl EngineCall {
    /// Whether the call yields a value; the others only take effect.
    pub open spec fn yields_value(&self) -> bool {
        !(self is SetProperty || self is DeleteProperty || self is SetPropertyAtIndex)
    }
}

/// What a fallible call handed back: its result (null for none) and what it
/// left in the exception slot (null for nothing thrown).
#[derive(Clone, Copy, Debug, PartialEq, Eq, Structural)]
pub struct EngineReply {
    pub result: OpaqueJSValue,
    pub exception: OpaqueJSValue,
}

/// How a call into the engine ended.
#[derive(Clone, Copy, Debug)]
pub enum Completion {
    /// The call yielded this value.
    Value(JSValue),
    /// The call, which yields nothing, took effect.
    Done,
    /// The engine threw this value.
    Thrown(JSValue),
    /// The engine declined the call without throwing, and yielded no value:
    /// the target cannot be called or constructed, or nothing could be made.
    Refused,
}

/// The outcome a reply to `call` settles into.
pub open spec fn settles_as(call: EngineCall, reply: EngineReply, r: Completion) -> bool {
    if reply.exception.addr != 0 {
        r matches Completion::Thrown(e) && e@ == reply.exception
    } else if !call.yields_value() {
        r is Done
    } else if reply.result.addr == 0 {
        r is Refused
    } else {
        r matches Completion::Value(v) && v@ == reply.result
    }
}

impl EngineCall {
    /// Settles the reply the engine gave to this call.
    pub fn complete(&self, reply: EngineReply) -> (r: Completion)
        ensures
            settles_as(*self, reply, r),
    {
        if !reply.exception.is_null() {
            Completion::Thrown(JSValue::from(reply.exception))
        } else {
            match self {
                EngineCall::SetProperty { .. }
                | EngineCall::DeleteProperty { .. }
                | EngineCall::SetPropertyAtIndex { .. } => Completion::Done,
                _ => {
                    if reply.result.is_null() {
                        Completion::Refused
                    } else {
                        Completion::Value(JSValue::from(reply.result))
                    }
                },
            }
        }
    }
}

/// An evaluation that throws nothing ends with the value it yields; one that
/// throws ends with what it threw, whatever result came beside it.
pub proof fn lemma_evaluation_outcome(call: EngineCall, reply: EngineReply, r: Completion)
    requires
        call is EvaluateScript,
        settles_as(call, reply, r),
    ensures
        reply.exception.addr == 0 && reply.result.addr != 0 ==> (r matches Completion::Value(v) && v@
            == reply.result),
        reply.exception.addr != 0 ==> (r matches Completion::Thrown(e) && e@ == reply.exception),
{
}

/// Settles a converted value against the exception slot of the conversion:
/// what was thrown, if anything was, else the value.
pub fn settle<T>(value: T, exception: OpaqueJSValue) -> (r: Result<T, JSValue>)
    ensures
        exception.addr != 0 ==> (r matches Err(e) && e@ == exception),
        exception.addr == 0 ==> r == Ok::<T, JSValue>(value),
{
    if exception.is_null() {
        Ok(value)
    } else {
        Err(JSValue::from(exception))
    }
}

} // verus!
