use hap::characteristic::{format_for, frame_characteristic, Characteristic, Format, Value};
use hap::pointer::EventEmitter;
use hap::{HapError, HapType};

#[test]
fn new_characteristic_holds_initial_value() {
    let c = Characteristic::new(HapType::CurrentPosition, Format::UInt8, 11, 1);
    assert_eq!(c.get_id(), 11);
    assert_eq!(c.get_accessory_id(), 1);
    assert_eq!(c.get_type(), HapType::CurrentPosition);
    assert_eq!(c.get_format(), Format::UInt8);
    assert!(matches!(c.get_value(), Value::Number(0)));
    assert_eq!(c.get_event_emitter(), None);
}

#[test]
fn initial_values_by_format() {
    assert!(matches!(Format::Bool.initial_value(), Value::Bool(false)));
    assert!(matches!(Format::UInt8.initial_value(), Value::Number(0)));
    assert!(matches!(Format::UInt16.initial_value(), Value::Number(0)));
    assert!(matches!(Format::UInt32.initial_value(), Value::Number(0)));
    assert!(matches!(Format::Int32.initial_value(), Value::Number(0)));
    match Format::String.initial_value() {
        Value::String(s) => assert_eq!(s, ""),
        _ => panic!("a string characteristic starts with the empty string"),
    }
}

#[test]
fn format_accepts_values_in_range() {
    assert!(Format::Bool.accepts(&Value::Bool(true)));
    assert!(!Format::Bool.accepts(&Value::Number(1)));
    assert!(Format::UInt8.accepts(&Value::Number(0)));
    assert!(Format::UInt8.accepts(&Value::Number(255)));
    assert!(!Format::UInt8.accepts(&Value::Number(256)));
    assert!(!Format::UInt8.accepts(&Value::Number(-1)));
    assert!(Format::UInt16.accepts(&Value::Number(65535)));
    assert!(!Format::UInt16.accepts(&Value::Number(65536)));
    assert!(Format::UInt32.accepts(&Value::Number(4294967295)));
    assert!(!Format::UInt32.accepts(&Value::Number(4294967296)));
    assert!(Format::Int32.accepts(&Value::Number(-2147483648)));
    assert!(Format::Int32.accepts(&Value::Number(2147483647)));
    assert!(!Format::Int32.accepts(&Value::Number(2147483648)));
    assert!(!Format::Int32.accepts(&Value::Number(-2147483649)));
    assert!(Format::String.accepts(&Value::String("x".to_string())));
    assert!(!Format::String.accepts(&Value::Bool(false)));
}

#[test]
fn set_value_stores_admitted_value() {
    let mut c = Characteristic::new(HapType::TargetPosition, Format::UInt8, 12, 1);
    assert_eq!(c.set_value(Value::Number(80)), Ok(()));
    assert!(matches!(c.get_value(), Value::Number(80)));
    assert_eq!(c.get_id(), 12);
    assert_eq!(c.get_type(), HapType::TargetPosition);
}

#[test]
fn set_value_rejects_mistyped_value() {
    let mut c = Characteristic::new(HapType::Identify, Format::Bool, 2, 1);
    let r = c.set_value(Value::String("yes".to_string()));
    assert_eq!(r, Err(HapError::InvalidValue(Format::Bool)));
    assert!(matches!(c.get_value(), Value::Bool(false)));
}

#[test]
fn set_value_rejects_out_of_range_value() {
    let mut c = Characteristic::new(HapType::CurrentPosition, Format::UInt8, 11, 1);
    assert_eq!(c.set_value(Value::Number(100)), Ok(()));
    let r = c.set_value(Value::Number(300));
    assert_eq!(r, Err(HapError::InvalidValue(Format::UInt8)));
    assert!(matches!(c.get_value(), Value::Number(100)));
}

#[test]
fn set_event_emitter_installs_and_clears() {
    let mut c = Characteristic::new(HapType::Name, Format::String, 5, 1);
    c.set_event_emitter(Some(EventEmitter::new(7)));
    assert_eq!(c.get_event_emitter(), Some(EventEmitter { channel: 7 }));
    assert_eq!(c.get_id(), 5);
    c.set_event_emitter(None);
    assert_eq!(c.get_event_emitter(), None);
}

#[test]
fn type_codes_and_format_names() {
    assert_eq!(HapType::WindowCovering.as_str(), "8C");
    assert_eq!(HapType::AccessoryInformation.as_str(), "3E");
    assert_eq!(HapType::CurrentPosition.as_str(), "6D");
    assert_eq!(HapType::Name.as_str(), "23");
    assert_eq!(HapType::default(), HapType::Unknown);
    assert_eq!(Format::Bool.as_str(), "bool");
    assert_eq!(Format::UInt8.as_str(), "uint8");
    assert_eq!(Format::Int32.as_str(), "int");
    assert_eq!(Format::String.as_str(), "string");
}

#[test]
fn frame_characteristic_orders_fields() {
    let text = frame_characteristic("11", HapType::CurrentPosition, Format::UInt8, "50");
    assert_eq!(text, "{\"iid\":11,\"type\":\"6D\",\"format\":\"uint8\",\"value\":50}");
}

#[test]
fn characteristic_serializes_its_value() {
    let mut c = Characteristic::new(HapType::Manufacturer, Format::String, 3, 1);
    assert_eq!(c.set_value(Value::String("Acme \"Inc\"".to_string())), Ok(()));
    assert_eq!(
        c.serialize(),
        "{\"iid\":3,\"type\":\"20\",\"format\":\"string\",\"value\":\"Acme \\\"Inc\\\"\"}"
    );
    let mut t = Characteristic::new(HapType::TargetHorizontalTiltAngle, Format::Int32, 20, 1);
    assert_eq!(t.set_value(Value::Number(-90)), Ok(()));
    assert_eq!(
        t.serialize(),
        "{\"iid\":20,\"type\":\"7B\",\"format\":\"int\",\"value\":-90}"
    );
    let b = Characteristic::new(HapType::Identify, Format::Bool, 2, 1);
    assert_eq!(
        b.serialize(),
        "{\"iid\":2,\"type\":\"14\",\"format\":\"bool\",\"value\":false}"
    );
}

#[test]
fn value_serializes_as_json_scalar() {
    assert_eq!(Value::Bool(true).serialize(), "true");
    assert_eq!(Value::Bool(false).serialize(), "false");
    assert_eq!(Value::Number(0).serialize(), "0");
    assert_eq!(Value::Number(-17).serialize(), "-17");
    assert_eq!(Value::String("a\nb".to_string()).serialize(), "\"a\\nb\"");
}

#[test]
fn constructor_per_kind_gives_tag_and_format() {
    let all = vec![
        (Characteristic::accessory_flags(1, 9), HapType::AccessoryFlags, Format::UInt32),
        (
            Characteristic::current_horizontal_tilt_angle(2, 9),
            HapType::CurrentHorizontalTiltAngle,
            Format::Int32,
        ),
        (Characteristic::current_position(3, 9), HapType::CurrentPosition, Format::UInt8),
        (
            Characteristic::current_vertical_tilt_angle(4, 9),
            HapType::CurrentVerticalTiltAngle,
            Format::Int32,
        ),
        (Characteristic::firmware_revision(5, 9), HapType::FirmwareRevision, Format::String),
        (Characteristic::hardware_revision(6, 9), HapType::HardwareRevision, Format::String),
        (Characteristic::hold_position(7, 9), HapType::HoldPosition, Format::Bool),
        (Characteristic::identify(8, 9), HapType::Identify, Format::Bool),
        (Characteristic::manufacturer(9, 9), HapType::Manufacturer, Format::String),
        (Characteristic::model(10, 9), HapType::Model, Format::String),
        (Characteristic::name(11, 9), HapType::Name, Format::String),
        (Characteristic::obstruction_detected(12, 9), HapType::ObstructionDetected, Format::Bool),
        (Characteristic::position_state(13, 9), HapType::PositionState, Format::UInt8),
        (Characteristic::serial_number(14, 9), HapType::SerialNumber, Format::String),
        (
            Characteristic::target_horizontal_tilt_angle(15, 9),
            HapType::TargetHorizontalTiltAngle,
            Format::Int32,
        ),
        (Characteristic::target_position(16, 9), HapType::TargetPosition, Format::UInt8),
        (
            Characteristic::target_vertical_tilt_angle(17, 9),
            HapType::TargetVerticalTiltAngle,
            Format::Int32,
        ),
    ];
    for (k, (c, hap_type, format)) in all.iter().enumerate() {
        assert_eq!(c.get_id(), k as u64 + 1);
        assert_eq!(c.get_accessory_id(), 9);
        assert_eq!(c.get_type(), *hap_type);
        assert_eq!(c.get_format(), *format);
        assert_eq!(format_for(*hap_type), Some(*format));
        assert_eq!(c.get_event_emitter(), None);
        assert!(format.accepts(c.get_value()));
    }
}

#[test]
fn service_tags_have_no_format() {
    assert_eq!(format_for(HapType::Unknown), None);
    assert_eq!(format_for(HapType::AccessoryInformation), None);
    assert_eq!(format_for(HapType::WindowCovering), None);
}
