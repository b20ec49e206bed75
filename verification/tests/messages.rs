use alwayson_model::text::{decimal_text, digit_str, str_equal};
use alwayson_model::{ErrorKind, MessageHeader, MessageKind, PyAlwaysOnError, PyTwxMessage};

#[test]
fn build_auth_makes_an_auth_frame() {
    let m = PyTwxMessage::build_auth(7, "key123".to_string()).unwrap();
    assert!(m.is_auth());
    assert_eq!(m.get_request_id(), 7);
    assert_eq!(m.classify(), MessageKind::Auth);
    assert!(!m.is_request());
    assert!(!m.is_response());
    assert!(!m.is_bind());
    assert_eq!(m.get_message_type(), "Auth");
    assert_eq!(m.get_session_id(), 0);
    assert_eq!(m.get_endpoint(), 0);
    match m {
        PyTwxMessage::Auth(_, key) => assert_eq!(key, "key123"),
        other => panic!("unexpected frame {:?}", other),
    }
}

#[test]
fn header_fields_of_every_kind() {
    let h = MessageHeader { request_id: 1, session_id: 2, endpoint: 3 };
    let frames = vec![
        (PyTwxMessage::Request(h, vec![1]), MessageKind::Request, "Request"),
        (PyTwxMessage::Response(h, vec![]), MessageKind::Response, "Response"),
        (PyTwxMessage::Auth(h, "k".to_string()), MessageKind::Auth, "Auth"),
        (PyTwxMessage::Bind(h, vec![2, 3]), MessageKind::Bind, "Bind"),
    ];
    for (frame, kind, name) in frames {
        assert_eq!(frame.classify(), kind);
        assert_eq!(frame.get_message_type(), name);
        assert_eq!(frame.get_header(), h);
        assert_eq!(frame.get_request_id(), 1);
        assert_eq!(frame.get_session_id(), 2);
        assert_eq!(frame.get_endpoint(), 3);
        assert_eq!(frame.is_request(), kind == MessageKind::Request);
        assert_eq!(frame.is_response(), kind == MessageKind::Response);
        assert_eq!(frame.is_auth(), kind == MessageKind::Auth);
        assert_eq!(frame.is_bind(), kind == MessageKind::Bind);
        assert_eq!(frame.__repr__(), format!("TwxMessage({})", name));
    }
}

#[test]
fn short_description_names_kind_and_header() {
    let h = MessageHeader { request_id: 10, session_id: u32::MAX, endpoint: 0 };
    let m = PyTwxMessage::Bind(h, vec![]);
    assert_eq!(m.short_description(), "Bind(request_id=10, session_id=4294967295, endpoint=0)");
    assert_eq!(m.__str__(), m.short_description());
    let a = PyTwxMessage::build_auth(7, "key123".to_string()).unwrap();
    assert_eq!(a.short_description(), "Auth(request_id=7, session_id=0, endpoint=0)");
}

#[test]
fn decimal_text_of_chosen_numbers() {
    assert_eq!(decimal_text(0), "0");
    assert_eq!(decimal_text(7), "7");
    assert_eq!(decimal_text(10), "10");
    assert_eq!(decimal_text(1234567890), "1234567890");
    assert_eq!(decimal_text(u64::MAX), "18446744073709551615");
    for d in 0..10u8 {
        assert_eq!(digit_str(d), d.to_string());
    }
}

#[test]
fn str_equal_compares_characters() {
    assert!(str_equal("abc", "abc"));
    assert!(!str_equal("abc", "abd"));
    assert!(!str_equal("abc", "ab"));
    assert!(str_equal("", ""));
}

#[test]
fn error_texts() {
    let e = PyAlwaysOnError::new(ErrorKind::MissingField, "Missing field: x".to_string());
    assert_eq!(e.kind(), ErrorKind::MissingField);
    assert_eq!(e.__str__(), "Missing field: x");
    assert_eq!(e.__repr__(), "AlwaysOnError('Missing field: x')");
    let d = PyAlwaysOnError::decode_error("Message deserialization error", "short read");
    assert_eq!(d.kind, ErrorKind::DecodeError);
    assert_eq!(d.message, "Message deserialization error: short read");
    let w = PyAlwaysOnError::with_detail(ErrorKind::InvalidBaseType, "Invalid base type: ", "x");
    assert_eq!(w.message, "Invalid base type: x");
}
