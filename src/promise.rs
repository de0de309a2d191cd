//! Deferred promises: a promise object with the two functions that settle it.
//!
//! Settling consumes the promise, so that it can be settled only once, and
//! only one way: after `resolve` there is no promise left to `reject`.
use vstd::prelude::*;
use crate::abi::EngineCall;
use crate::context::JSContext;
use crate::handle::{OpaqueJSContext, OpaqueJSValue};
use crate::value::{handles_of, value_refs, JSObject, JSValue};

verus! {

/// The settling functions of a deferred promise, and the context it was made in.
#[derive(Debug)]
pub struct JSPromise {
    pub resolve: JSObject,
    pub reject: JSObject,
    pub context: OpaqueJSContext,
}

impl JSObject<JSPromise> {
    /// A deferred promise as the engine made it in `context`: the promise
    /// object and its linked `resolve` and `reject` functions.
    pub fn promise(context: &JSContext, promise: OpaqueJSValue, resolve: OpaqueJSValue, reject: OpaqueJSValue) -> (r:
        JSObject<JSPromise>)
        ensures
            r.handle() == promise,
            r.data_spec() matches Some(p) && p.resolve.handle() == resolve && p.reject.handle() == reject
                && p.context == context.inner,
    {
        let data = JSPromise { resolve: JSObject::from(resolve), reject: JSObject::from(reject), context: context.inner };
        JSObject::with_data(promise, data)
    }

    /// Resolves the promise with `arguments`: the call of its `resolve`
    /// function, on the promise. The promise is used up.
    pub fn resolve(self, arguments: &[JSValue]) -> (r: EngineCall)
        requires
            self.data_spec() is Some,
        ensures
            r matches EngineCall::CallAsFunction { context, function, this, arguments: args }
                && context == self.data_spec()->0.context && function == self.data_spec()->0.resolve.handle()
                && this == self.handle() && args@ == handles_of(arguments@),
    {
        let this = self.get_ref();
        let data = self.into_data().unwrap();
        EngineCall::CallAsFunction {
            context: data.context,
            function: data.resolve.get_ref(),
            this,
            arguments: value_refs(arguments),
        }
    }

    /// Rejects the promise with `arguments`: the call of its `reject`
    /// function, on the promise. The promise is used up.
    pub fn reject(self, arguments: &[JSValue]) -> (r: EngineCall)
        requires
            self.data_spec() is Some,
        ensures
            r matches EngineCall::CallAsFunction { context, function, this, arguments: args }
                && context == self.data_spec()->0.context && function == self.data_spec()->0.reject.handle()
                && this == self.handle() && args@ == handles_of(arguments@),
    {
        let this = self.get_ref();
        let data = self.into_data().unwrap();
        EngineCall::CallAsFunction {
            context: data.context,
            function: data.reject.get_ref(),
            this,
            arguments: value_refs(arguments),
        }
    }

    /// The context the promise was made in.
    pub fn context(&self) -> (r: Option<OpaqueJSContext>)
        ensures
            match self.data_spec() {
                Some(p) => r == Some(p.context),
                None => r is None,
            },
    {
        match self.data_ref() {
            Some(p) => Some(p.context),
            None => None,
        }
    }
}

} // verus!
