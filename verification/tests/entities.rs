use alwayson_model::entities::entity_text;
use alwayson_model::{ErrorKind, PyBaseType, PyTwxEvent, PyTwxProperty, PyTwxService};

#[test]
fn entity_text_takes_valid_utf8() {
    let text = entity_text("{\"name\":\"caf\u{e9}\"}".as_bytes(), "Event").unwrap();
    assert_eq!(text, "{\"name\":\"caf\u{e9}\"}");
    assert_eq!(entity_text(b"", "Event").unwrap(), "");
}

#[test]
fn entity_text_rejects_other_bytes() {
    let e = entity_text(&[0x7b, 0xff, 0x7d], "Service").unwrap_err();
    assert_eq!(e.kind, ErrorKind::DecodeError);
    assert_eq!(e.message, "Service data is not valid UTF-8 JSON");
    // A lone continuation byte and a truncated sequence.
    assert!(entity_text(&[0x80], "Event").is_err());
    assert!(entity_text(&[0xe2, 0x82], "Event").is_err());
}

#[test]
fn each_entity_names_itself_in_the_failure() {
    let bad = [0xc0u8, 0x80];
    assert_eq!(
        PyTwxEvent::text_from_bytes(&bad).unwrap_err().message,
        "Event data is not valid UTF-8 JSON"
    );
    assert_eq!(
        PyTwxService::text_from_bytes(&bad).unwrap_err().message,
        "Service data is not valid UTF-8 JSON"
    );
    assert_eq!(
        PyTwxProperty::text_from_bytes(&bad).unwrap_err().message,
        "Property data is not valid UTF-8 JSON"
    );
    assert_eq!(PyTwxEvent::text_from_bytes(b"{}").unwrap(), "{}");
    assert_eq!(PyTwxService::text_from_bytes(b"{}").unwrap(), "{}");
    assert_eq!(PyTwxProperty::text_from_bytes(b"{}").unwrap(), "{}");
}

#[test]
fn event_and_service_texts() {
    let e = PyTwxEvent::new("alarm".to_string(), "it rings".to_string());
    assert_eq!(e.get_name(), "alarm");
    assert_eq!(e.get_description(), "it rings");
    assert_eq!(e.__str__(), "TwxEvent(name='alarm', description='it rings')");
    assert_eq!(e.__repr__(), e.__str__());
    let s = PyTwxService::new("reset".to_string(), "".to_string());
    assert_eq!(s.get_name(), "reset");
    assert_eq!(s.get_description(), "");
    assert_eq!(s.__str__(), "TwxService(name='reset', description='')");
    assert_eq!(s.__repr__(), s.__str__());
}

#[test]
fn property_accessors() {
    let p = PyTwxProperty::new("temp".to_string(), PyBaseType::Number, 0.5f64.to_bits());
    assert_eq!(p.get_name(), "temp");
    assert_eq!(p.get_base_type(), "NUMBER");
    assert_eq!(f64::from_bits(p.get_push_threshold()), 0.5);
}
