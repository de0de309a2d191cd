//! Property access, invocation and construction: the calls each operation
//! makes, with its arguments marshaled for the engine.
//!
//! The engine reads an argument list during the call and keeps none of it.
//! Names cross as NUL-terminated UTF-8; a name holding a NUL byte is refused
//! before any call is made.
use vstd::prelude::*;
use vstd::string::StringSliceAdditionalSpecFns;
use vstd::utf8::{decode_utf8, valid_utf8};
use crate::abi::{settle, EngineCall};
use crate::context::JSContext;
use crate::handle::OpaqueJSValue;
use crate::string::{c_string_of, first_nul, text_in_buffer, FromUtf8Error, JSString, NulError};
use crate::value::{handles_of, value_refs, JSObject, JSValue};

verus! {

/// The attributes a property is written with: none (writable, enumerable,
/// deletable).
pub const PROPERTY_ATTRIBUTE_NONE: u32 = 0;

/// The handle that stands for "no object" where one is optional.
pub open spec fn this_handle(this: Option<&JSObject>) -> OpaqueJSValue {
    match this {
        Some(o) => o.handle(),
        None => OpaqueJSValue { addr: 0 },
    }
}

impl JSContext {
    /// The call that evaluates `script` in this context's global context,
    /// reporting lines from `starting_line_number` on.
    pub fn evaluate_script(&self, script: &str, starting_line_number: i32) -> (r: Result<EngineCall, NulError>)
        ensures
            match first_nul(script.spec_bytes()) {
                Some(p) => r == Err::<EngineCall, NulError>(NulError { position: p as usize }),
                None => r matches Ok(EngineCall::EvaluateScript { context, script: s, starting_line })
                    && context == self.vm.global_context && s@ == c_string_of(script.spec_bytes())
                    && starting_line == starting_line_number,
            },
    {
        match JSString::from_utf8(script) {
            Ok(s) => Ok(
                EngineCall::EvaluateScript {
                    context: self.vm.global_context,
                    script: s,
                    starting_line: starting_line_number,
                },
            ),
            Err(e) => Err(e),
        }
    }
}

impl<T> JSObject<T> {
    /// The call that makes an array of `args`, in order.
    pub fn new_array(context: &JSContext, args: &[JSValue]) -> (r: EngineCall)
        ensures
            r matches EngineCall::MakeArray { context: c, elements }
                && c == context.inner && elements@ == handles_of(args@),
    {
        EngineCall::MakeArray { context: context.inner, elements: value_refs(args) }
    }

    /// The call that invokes this object as a function, on `this` (none when
    /// absent) with `args` in order.
    pub fn call_as_function(&self, context: &JSContext, this: Option<&JSObject>, args: &[JSValue]) -> (r:
        EngineCall)
        ensures
            r matches EngineCall::CallAsFunction { context: c, function, this: t, arguments }
                && c == context.inner && function == self.handle() && t == this_handle(this)
                && arguments@ == handles_of(args@),
    {
        let t = match this {
            Some(o) => o.get_ref(),
            None => OpaqueJSValue::null(),
        };
        EngineCall::CallAsFunction {
            context: context.inner,
            function: self.get_ref(),
            this: t,
            arguments: value_refs(args),
        }
    }

    /// The call that invokes this object as a constructor with `args` in order.
    pub fn construct(&self, context: &JSContext, args: &[JSValue]) -> (r: EngineCall)
        ensures
            r matches EngineCall::CallAsConstructor { context: c, constructor, arguments }
                && c == context.inner && constructor == self.handle() && arguments@ == handles_of(args@),
    {
        EngineCall::CallAsConstructor {
            context: context.inner,
            constructor: self.get_ref(),
            arguments: value_refs(args),
        }
    }

    /// The call that reads the property `property_name`.
    pub fn get_property(&self, context: &JSContext, property_name: &str) -> (r: Result<EngineCall, NulError>)
        ensures
            match first_nul(property_name.spec_bytes()) {
                Some(p) => r == Err::<EngineCall, NulError>(NulError { position: p as usize }),
                None => r matches Ok(EngineCall::GetProperty { context: c, object, name })
                    && c == context.inner && object == self.handle()
                    && name@ == c_string_of(property_name.spec_bytes()),
            },
    {
        match JSString::from_utf8(property_name) {
            Ok(name) => Ok(EngineCall::GetProperty { context: context.inner, object: self.get_ref(), name }),
            Err(e) => Err(e),
        }
    }

    /// The call that writes `value` into the property `property_name`, with no
    /// attributes.
    pub fn set_property(&self, context: &JSContext, property_name: &str, value: JSValue) -> (r: Result<
        EngineCall,
        NulError,
    >)
        ensures
            match first_nul(property_name.spec_bytes()) {
                Some(p) => r == Err::<EngineCall, NulError>(NulError { position: p as usize }),
                None => r matches Ok(EngineCall::SetProperty { context: c, object, name, value: v, attributes })
                    && c == context.inner && object == self.handle()
                    && name@ == c_string_of(property_name.spec_bytes()) && v == value@
                    && attributes == PROPERTY_ATTRIBUTE_NONE,
            },
    {
        match JSString::from_utf8(property_name) {
            Ok(name) => Ok(
                EngineCall::SetProperty {
                    context: context.inner,
                    object: self.get_ref(),
                    name,
                    value: value.get_ref(),
                    attributes: PROPERTY_ATTRIBUTE_NONE,
                },
            ),
            Err(e) => Err(e),
        }
    }

    /// The call that deletes the property `property_name`.
    pub fn delete_property(&self, context: &JSContext, property_name: &str) -> (r: Result<
        EngineCall,
        NulError,
    >)
        ensures
            match first_nul(property_name.spec_bytes()) {
                Some(p) => r == Err::<EngineCall, NulError>(NulError { position: p as usize }),
                None => r matches Ok(EngineCall::DeleteProperty { context: c, object, name })
                    && c == context.inner && object == self.handle()
                    && name@ == c_string_of(property_name.spec_bytes()),
            },
    {
        match JSString::from_utf8(property_name) {
            Ok(name) => Ok(EngineCall::DeleteProperty { context: context.inner, object: self.get_ref(), name }),
            Err(e) => Err(e),
        }
    }

    /// The call that reads the element at `property_index`.
    pub fn get_property_at_index(&self, context: &JSContext, property_index: u32) -> (r: EngineCall)
        ensures
            r matches EngineCall::GetPropertyAtIndex { context: c, object, index }
                && c == context.inner && object == self.handle() && index == property_index,
    {
        EngineCall::GetPropertyAtIndex { context: context.inner, object: self.get_ref(), index: property_index }
    }

    /// The call that writes `value` into the element at `index`.
    pub fn set_property_at_index(&self, context: &JSContext, index: u32, value: JSValue) -> (r: EngineCall)
        ensures
            r matches EngineCall::SetPropertyAtIndex { context: c, object, index: i, value: v }
                && c == context.inner && object == self.handle() && i == index && v == value@,
    {
        EngineCall::SetPropertyAtIndex {
            context: context.inner,
            object: self.get_ref(),
            index,
            value: value.get_ref(),
        }
    }

    /// The call that makes a `Uint8Array` over `bytes`, without copying them.
    pub fn create_typed_array_with_bytes(context: &JSContext, bytes: &[u8]) -> (r: EngineCall)
        ensures
            r matches EngineCall::MakeTypedArrayWithBytes { context: c, length }
                && c == context.inner && length == bytes@.len(),
    {
        EngineCall::MakeTypedArrayWithBytes { context: context.inner, length: bytes.len() }
    }

    /// The call that makes a `Uint8Array` over the array buffer `buffer`.
    pub fn create_typed_array_from_buffer(context: &JSContext, buffer: &JSObject) -> (r: EngineCall)
        ensures
            r matches EngineCall::MakeTypedArrayWithArrayBuffer { context: c, buffer: b }
                && c == context.inner && b == buffer.handle(),
    {
        EngineCall::MakeTypedArrayWithArrayBuffer { context: context.inner, buffer: buffer.get_ref() }
    }
}

/// A byte view of a typed array or array buffer, as two calls read it: the
/// address of its bytes and their count. The view is good only until the next
/// call into the engine.
#[derive(Clone, Copy, Debug, PartialEq, Eq, Structural)]
pub struct ByteView {
    pub address: usize,
    pub length: usize,
}

/// Settles the two reads of a byte view: what the first read threw, else what
/// the second threw, else the view.
pub fn settle_byte_view(
    address: usize,
    address_exception: OpaqueJSValue,
    length: usize,
    length_exception: OpaqueJSValue,
) -> (r: Result<ByteView, JSValue>)
    ensures
        address_exception.addr != 0 ==> (r matches Err(e) && e@ == address_exception),
        address_exception.addr == 0 && length_exception.addr != 0 ==> (r matches Err(e) && e@
            == length_exception),
        address_exception.addr == 0 && length_exception.addr == 0 ==> r == Ok::<ByteView, JSValue>(
            ByteView { address, length },
        ),
{
    match settle(address, address_exception) {
        Err(e) => Err(e),
        Ok(a) => match settle(length, length_exception) {
            Err(e) => Err(e),
            Ok(n) => Ok(ByteView { address: a, length: n }),
        },
    }
}

/// Whether `name` is the text in `buffer`, of which the engine wrote
/// `written` bytes, the terminating NUL included.
pub open spec fn decodes_to(buffer: Seq<u8>, written: usize, name: Seq<char>) -> bool {
    valid_utf8(text_in_buffer(buffer, written as int)) && name == decode_utf8(text_in_buffer(buffer, written as int))
}

/// The property names of an object, read out of the buffers the engine filled
/// for them, in the engine's order. Each buffer comes with the count of bytes
/// written into it, the terminating NUL included.
pub fn get_property_names(buffers: &Vec<(Vec<u8>, usize)>) -> (r: Result<Vec<String>, FromUtf8Error>)
    ensures
        match r {
            Ok(names) => names@.len() == buffers@.len() && forall|i: int|
                0 <= i < buffers@.len() ==> #[trigger] decodes_to(buffers@[i].0@, buffers@[i].1, names@[i]@),
            Err(_) => exists|i: int|
                0 <= i < buffers@.len() && !valid_utf8(
                    #[trigger] text_in_buffer(buffers@[i].0@, buffers@[i].1 as int),
                ),
        },
{
    let mut names: Vec<String> = Vec::new();
    let mut i: usize = 0;
    while i < buffers.len()
        invariant
            i <= buffers@.len(),
            names@.len() == i,
            forall|j: int| 0 <= j < i ==> #[trigger] decodes_to(buffers@[j].0@, buffers@[j].1, names@[j]@),
        decreases buffers@.len() - i,
    {
        let entry = &buffers[i];
        match JSString::to_string_utf8(&entry.0, entry.1) {
            Ok(name) => {
                let ghost before = names@;
                names.push(name);
                assert forall|j: int| 0 <= j < i + 1 implies #[trigger] decodes_to(
                    buffers@[j].0@,
                    buffers@[j].1,
                    names@[j]@,
                ) by {
                    if j < i {
                        assert(names@[j] == before[j]);
                    }
                }
            },
            Err(e) => {
                return Err(e);
            },
        }
        i = i + 1;
    }
    Ok(names)
}

} // verus!
