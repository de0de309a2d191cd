use rusty_jsc::abi::{settle, Completion, EngineCall, EngineReply};
use rusty_jsc::context::{JSContext, JSVirtualMachine};
use rusty_jsc::handle::{OpaqueJSContext, OpaqueJSContextGroup, OpaqueJSValue};
use rusty_jsc::object::{get_property_names, settle_byte_view, ByteView, PROPERTY_ATTRIBUTE_NONE};
use rusty_jsc::string::{FromUtf8Error, NulError};
use rusty_jsc::value::{value_refs, JSObject, JSValue};

fn h(addr: usize) -> OpaqueJSValue {
    OpaqueJSValue { addr }
}

fn v(addr: usize) -> JSValue {
    JSValue::from(h(addr))
}

fn context() -> JSContext {
    JSContext::new(JSVirtualMachine::new(OpaqueJSContextGroup { addr: 10 }, OpaqueJSContext { addr: 20 }))
}

fn reply(result: usize, exception: usize) -> EngineReply {
    EngineReply { result: h(result), exception: h(exception) }
}

fn value_of(c: Completion) -> Option<usize> {
    match c {
        Completion::Value(v) => Some(v.get_ref().addr),
        _ => None,
    }
}

fn thrown_of(c: Completion) -> Option<usize> {
    match c {
        Completion::Thrown(e) => Some(e.get_ref().addr),
        _ => None,
    }
}

#[test]
fn evaluate_script_marshals_source_and_line() {
    let ctx = context();
    match ctx.evaluate_script("1+1", 1).unwrap() {
        EngineCall::EvaluateScript { context, script, starting_line } => {
            assert_eq!(context, OpaqueJSContext { addr: 20 });
            assert_eq!(script, b"1+1\0".to_vec());
            assert_eq!(starting_line, 1);
        }
        other => panic!("unexpected call {:?}", other),
    }
}

#[test]
fn evaluate_script_refuses_nul_in_source() {
    let ctx = context();
    assert!(matches!(ctx.evaluate_script("a\0b", 3), Err(NulError { position: 1 })));
}

#[test]
fn evaluation_without_exception_yields_its_value() {
    let call = context().evaluate_script("1+1", 1).unwrap();
    assert_eq!(value_of(call.complete(reply(77, 0))), Some(77));
}

#[test]
fn evaluation_that_throws_yields_the_exception() {
    let call = context().evaluate_script("undefinedVar", 1).unwrap();
    assert_eq!(thrown_of(call.complete(reply(0, 99))), Some(99));
}

#[test]
fn exception_takes_precedence_over_a_result() {
    let call = context().evaluate_script("x", 1).unwrap();
    assert_eq!(thrown_of(call.complete(reply(77, 99))), Some(99));
}

#[test]
fn null_result_without_exception_is_refused() {
    let f: JSObject = JSObject::from(h(5));
    let call = f.call_as_function(&context(), None, &[]);
    assert!(matches!(call.complete(reply(0, 0)), Completion::Refused));
    let call = f.construct(&context(), &[]);
    assert!(matches!(call.complete(reply(0, 0)), Completion::Refused));
}

#[test]
fn effect_only_calls_complete_as_done() {
    let mut o: JSObject = JSObject::from(h(5));
    let ctx = context();
    let call = o.set_property(&ctx, "k", v(8)).unwrap();
    assert!(matches!(call.complete(reply(0, 0)), Completion::Done));
    let call = o.set_property_at_index(&ctx, 2, v(8));
    assert!(matches!(call.complete(reply(0, 0)), Completion::Done));
    let call = o.delete_property(&ctx, "k").unwrap();
    assert!(matches!(call.complete(reply(0, 0)), Completion::Done));
    let call = o.delete_property(&ctx, "k").unwrap();
    assert_eq!(thrown_of(call.complete(reply(0, 4))), Some(4));
    o = JSObject::from(h(6));
    assert_eq!(o.get_ref().addr, 6);
}

#[test]
fn call_as_function_marshals_this_and_arguments_in_order() {
    let f: JSObject = JSObject::from(h(5));
    let this: JSObject = JSObject::from(h(6));
    match f.call_as_function(&context(), Some(&this), &[v(1), v(2), v(3)]) {
        EngineCall::CallAsFunction { context, function, this, arguments } => {
            assert_eq!(context.addr, 20);
            assert_eq!(function, h(5));
            assert_eq!(this, h(6));
            assert_eq!(arguments, vec![h(1), h(2), h(3)]);
        }
        other => panic!("unexpected call {:?}", other),
    }
    match f.call_as_function(&context(), None, &[]) {
        EngineCall::CallAsFunction { this, arguments, .. } => {
            assert_eq!(this, h(0));
            assert!(arguments.is_empty());
        }
        other => panic!("unexpected call {:?}", other),
    }
}

#[test]
fn construct_and_new_array_marshal_arguments() {
    let c: JSObject = JSObject::from(h(5));
    match c.construct(&context(), &[v(4), v(3)]) {
        EngineCall::CallAsConstructor { constructor, arguments, .. } => {
            assert_eq!(constructor, h(5));
            assert_eq!(arguments, vec![h(4), h(3)]);
        }
        other => panic!("unexpected call {:?}", other),
    }
    match JSObject::<rusty_jsc::value::JSObjectGeneric>::new_array(&context(), &[v(9)]) {
        EngineCall::MakeArray { elements, .. } => assert_eq!(elements, vec![h(9)]),
        other => panic!("unexpected call {:?}", other),
    }
}

#[test]
fn property_calls_carry_encoded_names() {
    let o: JSObject = JSObject::from(h(5));
    let ctx = context();
    match o.get_property(&ctx, "bind").unwrap() {
        EngineCall::GetProperty { object, name, .. } => {
            assert_eq!(object, h(5));
            assert_eq!(name, b"bind\0".to_vec());
        }
        other => panic!("unexpected call {:?}", other),
    }
    match o.set_property(&ctx, "k", v(8)).unwrap() {
        EngineCall::SetProperty { name, value, attributes, .. } => {
            assert_eq!(name, b"k\0".to_vec());
            assert_eq!(value, h(8));
            assert_eq!(attributes, PROPERTY_ATTRIBUTE_NONE);
        }
        other => panic!("unexpected call {:?}", other),
    }
    assert_eq!(o.get_property(&ctx, "\0").err(), Some(NulError { position: 0 }));
    match o.get_property_at_index(&ctx, 3) {
        EngineCall::GetPropertyAtIndex { index, .. } => assert_eq!(index, 3),
        other => panic!("unexpected call {:?}", other),
    }
}

#[test]
fn get_property_yields_the_value_read() {
    let o: JSObject = JSObject::from(h(5));
    let call = o.get_property(&context(), "k").unwrap();
    assert_eq!(value_of(call.complete(reply(8, 0))), Some(8));
}

#[test]
fn typed_array_calls() {
    let mut bytes = [1u8, 2, 3, 4];
    match JSObject::<rusty_jsc::value::JSObjectGeneric>::create_typed_array_with_bytes(&context(), &mut bytes) {
        EngineCall::MakeTypedArrayWithBytes { length, .. } => assert_eq!(length, 4),
        other => panic!("unexpected call {:?}", other),
    }
    let buffer: JSObject = JSObject::from(h(12));
    let call = JSObject::<rusty_jsc::value::JSObjectGeneric>::create_typed_array_from_buffer(&context(), &buffer);
    match &call {
        EngineCall::MakeTypedArrayWithArrayBuffer { buffer, .. } => assert_eq!(*buffer, h(12)),
        other => panic!("unexpected call {:?}", other),
    }
    assert!(matches!(call.complete(reply(0, 0)), Completion::Refused));
}

#[test]
fn byte_view_takes_the_first_exception() {
    assert_eq!(settle_byte_view(4096, h(0), 16, h(0)), Ok(ByteView { address: 4096, length: 16 }));
    assert_eq!(settle_byte_view(4096, h(3), 16, h(4)).unwrap_err().get_ref(), h(3));
    assert_eq!(settle_byte_view(4096, h(0), 16, h(4)).unwrap_err().get_ref(), h(4));
}

#[test]
fn settle_prefers_the_exception() {
    assert_eq!(settle(2.0f64, h(0)), Ok(2.0));
    assert_eq!(settle(2.0f64, h(31)).unwrap_err().get_ref(), h(31));
}

#[test]
fn property_names_in_engine_order() {
    let buffers = vec![(b"a\0".to_vec(), 2usize), (b"long\0\0\0".to_vec(), 5usize), (b"\0".to_vec(), 1usize)];
    assert_eq!(
        get_property_names(&buffers),
        Ok(vec!["a".to_string(), "long".to_string(), String::new()])
    );
    let bad = vec![(b"a\0".to_vec(), 2usize), (vec![0xc3u8, 0], 2usize)];
    assert_eq!(get_property_names(&bad), Err(FromUtf8Error));
}

#[test]
fn value_refs_keeps_order() {
    assert_eq!(value_refs(&[v(3), v(1), v(2)]), vec![h(3), h(1), h(2)]);
    assert!(value_refs(&[]).is_empty());
}
