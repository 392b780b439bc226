use rust_webui::{
    build_event, decode_text, dispatch, Call, Dispatch, DispatchError, Event, EventType,
    InvalidUtf8, Registry, UnknownEventType, Window,
};

/// A stand-in for the native runtime that holds the arguments of one event.
struct Simulated {
    window: usize,
    event_number: usize,
    texts: Vec<&'static [u8]>,
    integers: Vec<i64>,
    flags: Vec<bool>,
}

impl Simulated {
    fn bytes(&self, text: &Call, size: &Call) -> &'static [u8] {
        match (text, size) {
            (
                Call::GetStringAt { window, event_number, index },
                Call::GetSizeAt { window: w, event_number: e, index: i },
            ) => {
                assert_eq!((*window, *event_number), (self.window, self.event_number));
                assert_eq!((*w, *e, *i), (*window, *event_number, *index));
                self.texts[*index]
            }
            other => panic!("not a text query: {:?}", other),
        }
    }

    fn integer(&self, call: &Call) -> i64 {
        match call {
            Call::GetIntAt { window, event_number, index } => {
                assert_eq!((*window, *event_number), (self.window, self.event_number));
                self.integers[*index]
            }
            other => panic!("not an integer query: {:?}", other),
        }
    }

    fn flag(&self, call: &Call) -> bool {
        match call {
            Call::GetBoolAt { window, event_number, index } => {
                assert_eq!((*window, *event_number), (self.window, self.event_number));
                self.flags[*index]
            }
            other => panic!("not a boolean query: {:?}", other),
        }
    }
}

#[test]
fn arguments_hello_1_true_come_back() {
    let runtime = Simulated {
        window: 1,
        event_number: 40,
        texts: vec![b"hello", b"1", b"true"],
        integers: vec![0, 1, 1],
        flags: vec![false, true, true],
    };
    let event = build_event(1, 4, b"func1", 40, 7).unwrap();
    let (text, size) = event.get_string_at(0);
    assert_eq!(decode_text(runtime.bytes(&text, &size)), Ok("hello"));
    assert_eq!(runtime.integer(&event.get_int_at(1)), 1);
    assert_eq!(runtime.flag(&event.get_bool_at(2)), true);
}

#[test]
fn build_event_keeps_the_raw_values() {
    let event: Event = build_event(3, 2, b"button", 11, 5).unwrap();
    assert_eq!(event.window.handle(), 3);
    assert_eq!(event.event_type, EventType::MouseClick);
    assert_eq!(event.element, "button");
    assert_eq!(event.event_number, 11);
    assert_eq!(event.bind_id, 5);
}

#[test]
fn build_event_takes_an_empty_element_name() {
    let event = build_event(0, 1, b"", 0, 0).unwrap();
    assert_eq!(event.element, "");
    assert_eq!(event.event_type, EventType::Connected);
}

#[test]
fn build_event_refuses_an_element_name_that_is_no_text() {
    assert_eq!(
        build_event(3, 2, &[0xff], 11, 5).err(),
        Some(DispatchError::Element(InvalidUtf8))
    );
}

#[test]
fn build_event_refuses_an_unknown_event_type() {
    assert_eq!(
        build_event(3, 99, b"button", 11, 5).err(),
        Some(DispatchError::EventType(UnknownEventType { code: 99 }))
    );
}

#[test]
fn build_event_reports_the_element_name_first() {
    assert_eq!(
        build_event(3, 99, &[0x80], 11, 5).err(),
        Some(DispatchError::Element(InvalidUtf8))
    );
}

#[test]
fn dispatch_finds_the_handler_of_the_identifier() {
    let mut registry = Registry::new();
    registry.register(5, "five");
    registry.register(6, "six");
    match dispatch(&registry, 3, 4, b"func1", 11, 6) {
        Dispatch::Invoke { handler, event } => {
            assert_eq!(*handler, "six");
            assert_eq!(event.window.handle(), 3);
            assert_eq!(event.event_type, EventType::Callback);
            assert_eq!(event.element, "func1");
            assert_eq!(event.event_number, 11);
            assert_eq!(event.bind_id, 6);
        }
        _ => panic!("the handler was not found"),
    }
}

#[test]
fn dispatch_runs_the_registered_closure_on_the_event() {
    let mut registry: Registry<Box<dyn Fn(&mut Event) -> (Window, Call)>> = Registry::new();
    registry.register(
        2,
        Box::new(|event| (Window::new(event.window.handle()), event.set_response("ok").unwrap())),
    );
    match dispatch(&registry, 8, 4, b"save", 21, 2) {
        Dispatch::Invoke { handler, mut event } => {
            let (window, call) = handler(&mut event);
            assert_eq!(window.handle(), 8);
            match call {
                Call::SetResponse { window, event_number, response } => {
                    assert_eq!((window, event_number), (8, 21));
                    assert_eq!(response.as_bytes(), b"ok");
                }
                other => panic!("not a response: {:?}", other),
            }
        }
        _ => panic!("the handler was not found"),
    }
}

#[test]
fn dispatch_without_a_handler_is_a_miss() {
    let mut registry = Registry::new();
    registry.register(5, "five");
    assert!(matches!(dispatch(&registry, 3, 4, b"func1", 11, 6), Dispatch::Miss));
    let empty: Registry<&str> = Registry::new();
    assert!(matches!(dispatch(&empty, 3, 0, b"", 0, 0), Dispatch::Miss));
}

#[test]
fn dispatch_rejects_an_unknown_event_type() {
    let mut registry = Registry::new();
    registry.register(5, "five");
    assert!(matches!(
        dispatch(&registry, 3, 99, b"func1", 11, 5),
        Dispatch::Rejected(DispatchError::EventType(UnknownEventType { code: 99 }))
    ));
}

#[test]
fn dispatch_rejects_an_element_name_that_is_no_text() {
    let mut registry = Registry::new();
    registry.register(5, "five");
    assert!(matches!(
        dispatch(&registry, 3, 4, &[b'a', 0xc3], 11, 5),
        Dispatch::Rejected(DispatchError::Element(InvalidUtf8))
    ));
}

#[test]
fn dispatch_rejects_bad_raw_values_whether_or_not_a_handler_stands() {
    let empty: Registry<&str> = Registry::new();
    assert!(matches!(
        dispatch(&empty, 3, 4, &[0xff], 11, 5),
        Dispatch::Rejected(DispatchError::Element(InvalidUtf8))
    ));
    assert!(matches!(
        dispatch(&empty, 3, 7, b"x", 11, 5),
        Dispatch::Rejected(DispatchError::EventType(UnknownEventType { code: 7 }))
    ));
}

#[test]
fn dispatch_sees_a_handler_registered_in_between() {
    let mut registry = Registry::new();
    assert!(matches!(dispatch(&registry, 1, 2, b"x", 0, 3), Dispatch::Miss));
    registry.register(3, 'h');
    assert!(matches!(
        dispatch(&registry, 1, 2, b"x", 0, 3),
        Dispatch::Invoke { handler: &'h', .. }
    ));
}
