use webview_bridge::contexts::Contexts;
use webview_bridge::dispatch::{
    custom_event, CallError, CallRequest, Dispatcher, Outcome, Step,
};
use webview_bridge::handlers::{add_int, parse_int, to_uppercase, HandlerError};
use webview_bridge::pump::{
    tick_interval_ms, ticks_in_window, PumpAction, PumpEvent, TickConsumer, TickProducer, TICK_HZ,
};
use webview_bridge::registry::{standard_registry, Handler, RegistryBuilder};
use webview_bridge::value::{decode_i32, decode_str, decode_u64, encode_i32, DecodeError, Shape, Value};

fn call(name: &str, args: Vec<Value>, call_id: u64) -> CallRequest {
    CallRequest { name: name.to_string(), args, call_id, context: 7 }
}

fn reply(d: &mut Dispatcher, req: CallRequest) -> (u64, u64, Outcome) {
    match d.dispatch(req).step {
        Step::Reply(r) => (r.context, r.result.call_id, r.result.outcome),
        Step::Spawn(_) => panic!("expected an immediate answer"),
    }
}

fn int_of(o: &Outcome) -> i128 {
    match o {
        Outcome::Success(Value::Int(i)) => *i,
        _ => panic!("expected an integer"),
    }
}

fn text_of(o: &Outcome) -> String {
    match o {
        Outcome::Success(Value::Str(s)) => s.clone(),
        _ => panic!("expected a string"),
    }
}

#[test]
fn add_int_answers_sum() {
    let mut d = Dispatcher::new(standard_registry());
    let (ctx, id, o) = reply(&mut d, call("addInt", vec![Value::Int(2), Value::Int(3)], 1));
    assert_eq!(ctx, 7);
    assert_eq!(id, 1);
    assert_eq!(int_of(&o), 5);
}

#[test]
fn add_int_rejects_string_argument() {
    let mut d = Dispatcher::new(standard_registry());
    let (_, _, o) = reply(&mut d, call("addInt", vec![Value::Str("x".to_string()), Value::Int(3)], 2));
    match o {
        Outcome::Failure(e) => {
            assert_eq!(
                e,
                CallError::Decode(DecodeError::Mismatch { expected: Shape::Int, actual: Shape::Str })
            );
            assert!(e.describe().starts_with("decode error"));
        }
        Outcome::Success(_) => panic!("expected a decode error"),
    }
}

#[test]
fn unknown_function_fails() {
    let mut d = Dispatcher::new(standard_registry());
    let (_, id, o) = reply(&mut d, call("subInt", vec![Value::Int(2), Value::Int(3)], 3));
    assert_eq!(id, 3);
    match o {
        Outcome::Failure(e) => {
            assert_eq!(e, CallError::UnknownFunction);
            assert_eq!(e.describe(), "no such function");
        }
        Outcome::Success(_) => panic!("expected a failure"),
    }
}

#[test]
fn names_are_case_sensitive() {
    let mut d = Dispatcher::new(standard_registry());
    let (_, _, o) = reply(&mut d, call("AddInt", vec![Value::Int(2), Value::Int(3)], 4));
    assert!(matches!(o, Outcome::Failure(CallError::UnknownFunction)));
}

#[test]
fn wrong_argument_count_is_decode_error() {
    let mut d = Dispatcher::new(standard_registry());
    let (_, _, o) = reply(&mut d, call("addInt", vec![Value::Int(2)], 5));
    assert!(matches!(
        o,
        Outcome::Failure(CallError::Decode(DecodeError::ArgCount { expected: 2, actual: 1 }))
    ));
}

#[test]
fn add_int_overflow_fails() {
    let mut d = Dispatcher::new(standard_registry());
    let (_, _, o) = reply(&mut d, call("addInt", vec![Value::Int(i32::MAX as i128), Value::Int(1)], 6));
    assert!(matches!(o, Outcome::Failure(CallError::Handler(HandlerError::Overflow))));
}

#[test]
fn add_int_out_of_range_argument() {
    let mut d = Dispatcher::new(standard_registry());
    let (_, _, o) = reply(&mut d, call("addInt", vec![Value::Int(1i128 << 40), Value::Int(1)], 6));
    assert!(matches!(
        o,
        Outcome::Failure(CallError::Decode(DecodeError::OutOfRange { expected: Shape::Int }))
    ));
}

#[test]
fn to_uppercase_answers_upper_text() {
    let mut d = Dispatcher::new(standard_registry());
    let (_, _, o) = reply(&mut d, call("toUppercase", vec![Value::Str("hello, wef".to_string())], 8));
    assert_eq!(text_of(&o), "HELLO, WEF");
    assert_eq!(to_uppercase(&"straße".to_string()), "STRASSE");
    assert_eq!(to_uppercase(&String::new()), "");
}

#[test]
fn parse_int_answers_value_or_handler_error() {
    let mut d = Dispatcher::new(standard_registry());
    let (_, _, o) = reply(&mut d, call("parseInt", vec![Value::Str("-42".to_string())], 9));
    assert_eq!(int_of(&o), -42);
    let (_, _, o) = reply(&mut d, call("parseInt", vec![Value::Str("4x".to_string())], 10));
    match o {
        Outcome::Failure(e) => {
            assert_eq!(e, CallError::Handler(HandlerError::NotAnInteger));
            assert_eq!(e.describe(), "invalid integer");
        }
        Outcome::Success(_) => panic!("expected a handler error"),
    }
}

#[test]
fn parse_int_edge_cases() {
    assert_eq!(parse_int(&"+17".to_string()), Ok(17));
    assert_eq!(parse_int(&"2147483647".to_string()), Ok(i32::MAX));
    assert_eq!(parse_int(&"-2147483648".to_string()), Ok(i32::MIN));
    assert_eq!(parse_int(&"2147483648".to_string()), Err(HandlerError::NotAnInteger));
    assert_eq!(parse_int(&"".to_string()), Err(HandlerError::NotAnInteger));
    assert_eq!(parse_int(&"-".to_string()), Err(HandlerError::NotAnInteger));
    assert_eq!(parse_int(&" 1".to_string()), Err(HandlerError::NotAnInteger));
}

#[test]
fn add_int_edge_cases() {
    assert_eq!(add_int(2, 3), Ok(5));
    assert_eq!(add_int(i32::MIN, -1), Err(HandlerError::Overflow));
    assert_eq!(add_int(i32::MAX, i32::MIN), Ok(-1));
}

#[test]
fn codec_round_trips() {
    assert_eq!(decode_i32(&encode_i32(-9)), Ok(-9));
    assert_eq!(decode_u64(&Value::Int(u64::MAX as i128)), Ok(u64::MAX));
    assert_eq!(decode_u64(&Value::Int(-1)), Err(DecodeError::OutOfRange { expected: Shape::Int }));
    assert_eq!(
        decode_str(&Value::Null),
        Err(DecodeError::Mismatch { expected: Shape::Str, actual: Shape::Null })
    );
    assert_eq!(decode_str(&Value::Str("a".to_string())), Ok("a".to_string()));
    assert_eq!(
        decode_i32(&Value::Record(vec![])),
        Err(DecodeError::Mismatch { expected: Shape::Int, actual: Shape::Record })
    );
}

#[test]
fn sleep_goes_in_flight_and_completes_ok() {
    let mut d = Dispatcher::new(standard_registry());
    let task = match d.dispatch(call("sleep", vec![Value::Int(50)], 11)).step {
        Step::Spawn(t) => t,
        Step::Reply(_) => panic!("expected the call to go in flight"),
    };
    assert_eq!(task.millis, 50);
    assert_eq!(d.in_flight(), 1);
    let delivery = d.complete(task.ticket).expect("the call is in flight");
    assert_eq!(delivery.context, 7);
    assert_eq!(delivery.result.call_id, 11);
    assert_eq!(text_of(&delivery.result.outcome), "ok");
    assert_eq!(d.in_flight(), 0);
    assert!(d.complete(task.ticket).is_none());
}

#[test]
fn sleep_calls_complete_out_of_order_without_swapping() {
    let mut d = Dispatcher::new(standard_registry());
    let mut tasks = Vec::new();
    for (id, ms) in [(21u64, 500i128), (22u64, 10i128)] {
        let req = CallRequest { name: "sleep".to_string(), args: vec![Value::Int(ms)], call_id: id, context: id + 100 };
        match d.dispatch(req).step {
            Step::Spawn(t) => tasks.push(t),
            Step::Reply(_) => panic!("expected the call to go in flight"),
        }
    }
    let short = d.complete(tasks[1].ticket).unwrap();
    assert_eq!((short.result.call_id, short.context), (22, 122));
    let long = d.complete(tasks[0].ticket).unwrap();
    assert_eq!((long.result.call_id, long.context), (21, 121));
}

#[test]
fn sleep_with_negative_delay_is_decode_error() {
    let mut d = Dispatcher::new(standard_registry());
    let (_, _, o) = reply(&mut d, call("sleep", vec![Value::Int(-5)], 12));
    assert!(matches!(o, Outcome::Failure(CallError::Decode(_))));
    assert_eq!(d.in_flight(), 0);
}

#[test]
fn complete_of_unknown_ticket_gives_nothing() {
    let mut d = Dispatcher::new(standard_registry());
    assert!(d.complete(0).is_none());
}

#[test]
fn second_registration_replaces_first() {
    let r = RegistryBuilder::new()
        .register("f", Handler::AddInt)
        .register("g", Handler::Emit)
        .register("f", Handler::ToUppercase)
        .build();
    assert_eq!(r.lookup("f"), Some(Handler::ToUppercase));
    assert_eq!(r.lookup("g"), Some(Handler::Emit));
    assert_eq!(r.lookup("h"), None);
    let mut d = Dispatcher::new(r);
    let (_, _, o) = reply(&mut d, call("f", vec![Value::Str("ab".to_string())], 13));
    assert_eq!(text_of(&o), "AB");
}

#[test]
fn emit_handler_emits_custom_event() {
    let mut d = Dispatcher::new(standard_registry());
    let out = d.dispatch(call("emit", vec![], 14));
    assert_eq!(out.events.len(), 1);
    assert_eq!(out.events[0].event, "custom");
    assert_eq!(out.events[0].data, "ok");
    assert!(matches!(out.step, Step::Reply(ref r) if matches!(r.result.outcome, Outcome::Success(Value::Null))));
    let bad = d.dispatch(call("emit", vec![Value::Int(1)], 15));
    assert_eq!(bad.events.len(), 0);
}

#[test]
fn emit_to_destroyed_context_is_dropped() {
    let mut c = Contexts::new();
    c.open(1);
    c.open(2);
    assert!(c.emit(1, custom_event()).is_some());
    c.destroy(1);
    assert!(!c.is_alive(1));
    assert!(c.is_alive(2));
    assert!(c.emit(1, custom_event()).is_none());
    assert!(c.emit(2, custom_event()).is_some());
}

#[test]
fn delivery_to_destroyed_context_is_dropped() {
    let mut d = Dispatcher::new(standard_registry());
    let mut c = Contexts::new();
    c.open(7);
    let task = match d.dispatch(call("sleep", vec![Value::Int(1)], 16)).step {
        Step::Spawn(t) => t,
        Step::Reply(_) => panic!("expected the call to go in flight"),
    };
    c.destroy(7);
    let delivery = d.complete(task.ticket).unwrap();
    assert!(c.deliver(delivery).is_none());
}

#[test]
fn pump_cadence_over_one_second() {
    let interval = tick_interval_ms(TICK_HZ);
    assert_eq!(interval, 16);
    let n = ticks_in_window(1000, interval);
    assert_eq!(n, 62);
    assert!(n >= 57 && n <= 63);
}

#[test]
fn pump_runs_ticks_in_order_once() {
    let mut p = TickProducer::new();
    let mut c = TickConsumer::new();
    let mut advanced = Vec::new();
    let ticks: Vec<u64> = (0..5).map(|_| p.tick()).collect();
    assert_eq!(ticks, vec![0, 1, 2, 3, 4]);
    for t in [0u64, 1, 1, 3, 2, 3, 4] {
        if c.on_event(PumpEvent::Tick(t)) == PumpAction::Advance {
            advanced.push(t);
        }
    }
    assert_eq!(advanced, vec![0, 1, 2, 3, 4]);
    assert_eq!(c.on_event(PumpEvent::Closed), PumpAction::Stop);
    assert_eq!(c.on_event(PumpEvent::Tick(5)), PumpAction::Stop);
}

#[test]
fn event_payload_encodes_as_record() {
    match custom_event().encode() {
        Value::Record(fields) => {
            assert_eq!(
                fields,
                vec![
                    ("event".to_string(), "custom".to_string()),
                    ("data".to_string(), "ok".to_string())
                ]
            );
        }
        _ => panic!("expected a record"),
    }
}
