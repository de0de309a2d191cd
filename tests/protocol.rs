use rusty_jsc::abi::{Completion, EngineCall, EngineReply};
use rusty_jsc::closure::{bind_call, split_bound_arguments, ClosureTable};
use rusty_jsc::context::{JSContext, JSVirtualMachine};
use rusty_jsc::handle::{OpaqueJSContext, OpaqueJSContextGroup, OpaqueJSValue};
use rusty_jsc::marshal::{
    complete_construction, complete_invocation, marshal_arguments, marshal_construction, marshal_invocation,
    readable_arguments, CallbackReturn, HostOutcome,
};
use rusty_jsc::value::{JSObject, JSValue};

fn h(addr: usize) -> OpaqueJSValue {
    OpaqueJSValue { addr }
}

fn v(addr: usize) -> JSValue {
    JSValue::from(h(addr))
}

fn context() -> JSContext {
    JSContext::new(JSVirtualMachine::new(OpaqueJSContextGroup { addr: 10 }, OpaqueJSContext { addr: 20 }))
}

fn refs(values: &[JSValue]) -> Vec<usize> {
    values.iter().map(|x| x.get_ref().addr).collect()
}

#[test]
fn arguments_arrive_in_order() {
    let raw = [h(1), h(2), h(3)];
    assert_eq!(refs(&marshal_arguments(3, &raw)), vec![1, 2, 3]);
}

#[test]
fn zero_arguments_give_an_empty_sequence() {
    assert_eq!(readable_arguments(0, 0), 0);
    assert_eq!(readable_arguments(0, 4096), 0);
    assert_eq!(readable_arguments(2, 0), 0);
    assert_eq!(readable_arguments(2, 4096), 2);
    assert!(marshal_arguments(0, &[]).is_empty());
    assert!(marshal_arguments(0, &[h(1)]).is_empty());
}

#[test]
fn arguments_never_read_past_what_was_read() {
    assert_eq!(refs(&marshal_arguments(5, &[h(1), h(2)])), vec![1, 2]);
    assert_eq!(refs(&marshal_arguments(1, &[h(1), h(2)])), vec![1]);
}

#[test]
fn invocation_is_marshaled_in_protocol_order() {
    let inv = marshal_invocation(context(), h(5), h(6), 2, &[h(7), h(8)]);
    assert_eq!(inv.context, context());
    assert_eq!(inv.function.get_ref(), h(5));
    assert_eq!(inv.this.get_ref(), h(6));
    assert_eq!(refs(&inv.arguments), vec![7, 8]);
}

#[test]
fn returned_value_is_the_result() {
    let r = complete_invocation(HostOutcome::Returned(v(42)), v(1), v(2));
    assert_eq!(r, CallbackReturn { result: h(42), exception: None });
}

#[test]
fn thrown_value_goes_to_the_slot_with_undefined_result() {
    let r = complete_invocation(HostOutcome::Threw(v(13)), v(1), v(2));
    assert_eq!(r, CallbackReturn { result: h(1), exception: Some(h(13)) });
}

#[test]
fn fault_becomes_the_generic_error() {
    let r = complete_invocation(HostOutcome::Faulted, v(1), v(2));
    assert_eq!(r, CallbackReturn { result: h(1), exception: Some(h(2)) });
}

#[test]
fn callback_error_reaches_the_triggering_call() {
    let ret = complete_invocation(HostOutcome::Threw(v(13)), v(1), v(2));
    let call = context().evaluate_script("foo()", 1).unwrap();
    let reply = EngineReply { result: h(0), exception: ret.exception.unwrap() };
    match call.complete(reply) {
        Completion::Thrown(e) => assert_eq!(e, v(13)),
        _ => panic!("expected the thrown value"),
    }
    let f: JSObject = JSObject::from(h(5));
    let call = f.call_as_function(&context(), None, &[]);
    match call.complete(EngineReply { result: h(77), exception: ret.exception.unwrap() }) {
        Completion::Thrown(e) => assert_eq!(e, v(13)),
        _ => panic!("expected the thrown value"),
    }
}

#[test]
fn callback_foo_sees_one_two_three_and_script_sees_its_return() {
    // The script `foo(1,2,3)` makes the engine call the entry point with three
    // argument handles; the host returns a value that the evaluation yields.
    let call = context().evaluate_script("foo(1,2,3)", 1).unwrap();
    assert!(matches!(call, EngineCall::EvaluateScript { .. }));
    let raw = [h(101), h(102), h(103)];
    let n = readable_arguments(3, 4096);
    let inv = marshal_invocation(context(), h(5), h(6), 3, &raw[..n]);
    assert_eq!(refs(&inv.arguments), vec![101, 102, 103]);
    let ret = complete_invocation(HostOutcome::Returned(v(600)), v(1), v(2));
    assert_eq!(ret.exception, None);
    match call.complete(EngineReply { result: ret.result, exception: h(0) }) {
        Completion::Value(x) => assert_eq!(x, v(600)),
        _ => panic!("expected the returned value"),
    }
}

#[test]
fn constructor_hook_returns_the_constructor() {
    let c = marshal_construction(context(), h(9), 1, &[h(4)]);
    assert_eq!(c.constructor.get_ref(), h(9));
    assert_eq!(refs(&c.arguments), vec![4]);
    let r = complete_construction(&c.constructor, HostOutcome::Returned(v(3)), v(2));
    assert_eq!(r, CallbackReturn { result: h(9), exception: None });
    let r = complete_construction(&c.constructor, HostOutcome::Threw(v(8)), v(2));
    assert_eq!(r, CallbackReturn { result: h(9), exception: Some(h(8)) });
    let r = complete_construction(&c.constructor, HostOutcome::Faulted, v(2));
    assert_eq!(r, CallbackReturn { result: h(9), exception: Some(h(2)) });
}

#[test]
fn closures_are_found_by_key() {
    let mut table: ClosureTable<fn(u32) -> u32> = ClosureTable::new();
    fn double(x: u32) -> u32 {
        x * 2
    }
    fn square(x: u32) -> u32 {
        x * x
    }
    assert_eq!(table.register(double), Some(0));
    assert_eq!(table.register(square), Some(1));
    assert_eq!(table.len(), 2);
    assert_eq!((table.get(0).unwrap())(5), 10);
    assert_eq!((table.get(1).unwrap())(5), 25);
    assert!(table.get(2).is_none());
}

#[test]
fn bound_key_comes_off_the_front() {
    let (key, rest) = split_bound_arguments(&[v(50), v(1), v(2)]).unwrap();
    assert_eq!(key, v(50));
    assert_eq!(rest, vec![v(1), v(2)]);
    let (key, rest) = split_bound_arguments(&[v(50)]).unwrap();
    assert_eq!(key, v(50));
    assert!(rest.is_empty());
    assert!(split_bound_arguments(&[]).is_none());
}

#[test]
fn bind_fixes_the_key_as_first_argument() {
    let bind: JSObject = JSObject::from(h(70));
    let callback: JSObject = JSObject::from(h(71));
    match bind_call(&context(), &bind, &callback, v(1), v(50)) {
        EngineCall::CallAsFunction { function, this, arguments, .. } => {
            assert_eq!(function, h(70));
            assert_eq!(this, h(71));
            assert_eq!(arguments, vec![h(1), h(50)]);
        }
        other => panic!("unexpected call {:?}", other),
    }
}
