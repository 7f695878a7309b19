use hap::accessory::window_covering::WindowCoveringAccessory;
use hap::accessory::{
    find_mut_service, find_service, frame_accessory, AccessoryInformation, HapAccessory,
    HapAccessorySetup,
};
use hap::characteristic::{Characteristic, Format, Value};
use hap::pointer::EventEmitter;
use hap::service::accessory_information::AccessoryInformationService;
use hap::service::handle::{ServiceMut, ServiceRef};
use hap::service::window_covering::WindowCoveringService;
use hap::service::HapService;
use hap::HapType;

fn acme() -> AccessoryInformation {
    AccessoryInformation {
        manufacturer: "Acme".to_string(),
        model: "A1234".to_string(),
        name: "Acme Blind".to_string(),
        serial_number: "1A2B3C4D5E6F".to_string(),
        ..Default::default()
    }
}

fn text(c: &Characteristic) -> String {
    match c.get_value() {
        Value::String(s) => s.clone(),
        _ => panic!("a string was expected"),
    }
}

#[test]
fn default_information_is_undefined() {
    let i = AccessoryInformation::default();
    assert_eq!(i.manufacturer, "undefined");
    assert_eq!(i.model, "undefined");
    assert_eq!(i.name, "undefined");
    assert_eq!(i.serial_number, "undefined");
    assert_eq!(i.firmware_revision, "undefined");
    assert_eq!(i.hardware_revision, None);
    assert_eq!(i.accessory_flags, None);
}

#[test]
fn information_service_without_optional_fields() {
    let service = acme().to_service(1, 9).unwrap();
    let cs = service.get_characteristics();
    assert_eq!(cs.len(), 6);
    let types: Vec<HapType> = cs.iter().map(|c| c.get_type()).collect();
    assert_eq!(
        types,
        vec![
            HapType::Identify,
            HapType::Manufacturer,
            HapType::Model,
            HapType::Name,
            HapType::SerialNumber,
            HapType::FirmwareRevision,
        ]
    );
    let ids: Vec<u64> = cs.iter().map(|c| c.get_id()).collect();
    assert_eq!(ids, vec![2, 3, 4, 5, 6, 7]);
    assert!(service.hardware_revision.is_none());
    assert!(service.accessory_flags.is_none());
    assert!(service.get_characteristic(HapType::HardwareRevision).is_none());
    assert!(service.get_characteristic(HapType::AccessoryFlags).is_none());
    let json: serde_json::Value = serde_json::from_str(&service.serialize()).unwrap();
    assert_eq!(json["characteristics"].as_array().unwrap().len(), 6);
}

#[test]
fn information_service_with_both_optional_fields() {
    let information = AccessoryInformation {
        hardware_revision: Some("2.0.1".to_string()),
        accessory_flags: Some(1),
        ..acme()
    };
    let base = 40;
    let service = information.to_service(base, 9).unwrap();
    let cs = service.get_characteristics();
    assert_eq!(cs.len(), 6 + 2);
    assert_eq!(cs[6].get_id(), base + 7);
    assert_eq!(cs[6].get_type(), HapType::HardwareRevision);
    assert_eq!(text(cs[6]), "2.0.1");
    assert_eq!(cs[7].get_id(), base + 8);
    assert_eq!(cs[7].get_type(), HapType::AccessoryFlags);
    assert!(matches!(cs[7].get_value(), Value::Number(1)));
    assert_eq!(cs[7].get_format(), Format::UInt32);
    let json: serde_json::Value = serde_json::from_str(&service.serialize()).unwrap();
    let array = json["characteristics"].as_array().unwrap();
    assert_eq!(array.len(), 8);
    assert_eq!(array[6]["iid"].as_u64(), Some(base + 7));
    assert_eq!(array[7]["iid"].as_u64(), Some(base + 8));
}

#[test]
fn information_service_with_one_optional_field() {
    let only_flags = AccessoryInformation { accessory_flags: Some(u32::MAX), ..acme() };
    let service = only_flags.to_service(1, 9).unwrap();
    let ids: Vec<u64> = service.get_characteristics().iter().map(|c| c.get_id()).collect();
    assert_eq!(ids, vec![2, 3, 4, 5, 6, 7, 9]);
    assert!(matches!(
        service.accessory_flags.as_ref().unwrap().get_value(),
        Value::Number(4294967295)
    ));
    let only_revision = AccessoryInformation { hardware_revision: Some("1".to_string()), ..acme() };
    let service = only_revision.to_service(1, 9).unwrap();
    let ids: Vec<u64> = service.get_characteristics().iter().map(|c| c.get_id()).collect();
    assert_eq!(ids, vec![2, 3, 4, 5, 6, 7, 8]);
}

#[test]
fn information_values_are_assigned_verbatim() {
    let service = acme().to_service(1, 9).unwrap();
    assert_eq!(service.get_id(), 1);
    assert_eq!(service.get_type(), HapType::AccessoryInformation);
    assert!(!service.get_hidden());
    assert!(!service.get_primary());
    assert!(matches!(service.identify.get_value(), Value::Bool(false)));
    assert_eq!(text(&service.manufacturer), "Acme");
    assert_eq!(text(&service.model), "A1234");
    assert_eq!(text(&service.name), "Acme Blind");
    assert_eq!(text(&service.serial_number), "1A2B3C4D5E6F");
    assert_eq!(text(&service.firmware_revision), "undefined");
    for c in service.get_characteristics() {
        assert_eq!(c.get_accessory_id(), 9);
        assert_eq!(c.get_event_emitter(), None);
    }
}

#[test]
fn information_is_not_validated() {
    let information = AccessoryInformation {
        serial_number: "".to_string(),
        name: "x".repeat(1000),
        ..acme()
    };
    let service = information.to_service(1, 9).unwrap();
    assert_eq!(text(&service.serial_number), "");
    assert_eq!(text(&service.name).len(), 1000);
}

#[test]
fn new_information_service_has_six_required() {
    let service = AccessoryInformationService::new(1, 2);
    let ids: Vec<u64> = service.get_characteristics().iter().map(|c| c.get_id()).collect();
    assert_eq!(ids, vec![2, 3, 4, 5, 6, 7]);
    assert_eq!(text(&service.manufacturer), "");
    assert_eq!(service.identify.get_format(), Format::Bool);
    assert_eq!(service.model.get_format(), Format::String);
}

#[test]
fn new_accessory_has_two_services() {
    let accessory = WindowCoveringAccessory::new(3, acme()).unwrap();
    assert_eq!(accessory.get_id(), 3);
    let services = accessory.get_services();
    assert_eq!(services.len(), 2);
    assert_eq!(services[0].get_type(), HapType::AccessoryInformation);
    assert_eq!(services[0].get_id(), 1);
    assert!(!services[0].get_primary());
    assert_eq!(services[1].get_type(), HapType::WindowCovering);
    assert_eq!(services[1].get_id(), 10);
    assert!(services[1].get_primary());
    assert!(!services[1].get_hidden());
    assert_eq!(text(&accessory.accessory_information.manufacturer), "Acme");
    for service in accessory.get_services() {
        for c in service.get_characteristics() {
            assert_eq!(c.get_accessory_id(), 3);
        }
    }
}

#[test]
fn set_id_changes_only_the_id() {
    let mut accessory = WindowCoveringAccessory::new(3, acme()).unwrap();
    accessory.set_id(8);
    assert_eq!(accessory.get_id(), 8);
    assert_eq!(accessory.get_services().len(), 2);
    assert_eq!(accessory.window_covering.get_id(), 10);
}

#[test]
fn ids_do_not_collide_across_services() {
    let information = AccessoryInformation {
        hardware_revision: Some("1.0".to_string()),
        accessory_flags: Some(2),
        ..acme()
    };
    let accessory = WindowCoveringAccessory::new(3, information).unwrap();
    let mut all: Vec<u64> = Vec::new();
    for service in accessory.get_services() {
        all.push(service.get_id());
        for c in service.get_characteristics() {
            all.push(c.get_id());
        }
    }
    assert_eq!(all, vec![1, 2, 3, 4, 5, 6, 7, 8, 9, 10, 11, 12, 13]);
}

#[test]
fn get_service_by_type() {
    let mut accessory = WindowCoveringAccessory::new(3, acme()).unwrap();
    assert_eq!(accessory.get_service(HapType::WindowCovering).map(|s| s.get_id()), Some(10));
    assert_eq!(accessory.get_service(HapType::AccessoryInformation).map(|s| s.get_id()), Some(1));
    assert!(accessory.get_service(HapType::Name).is_none());
    assert!(accessory.get_mut_service(HapType::Unknown).is_none());
    match accessory.get_mut_service(HapType::WindowCovering) {
        Some(ServiceMut::WindowCovering(s)) => s.set_hidden(true),
        _ => panic!("the window covering service was expected"),
    }
    assert!(accessory.window_covering.get_hidden());
    assert!(!accessory.accessory_information.get_hidden());
}

#[test]
fn service_handle_looks_up_characteristics() {
    let mut accessory = WindowCoveringAccessory::new(3, acme()).unwrap();
    let service = accessory.get_service(HapType::WindowCovering).unwrap();
    assert!(!service.get_hidden());
    assert_eq!(service.get_characteristic(HapType::PositionState).map(|c| c.get_id()), Some(13));
    assert!(service.get_characteristic(HapType::HoldPosition).is_none());
    let service = accessory.get_mut_service(HapType::WindowCovering).unwrap();
    assert_eq!(service.get_id(), 10);
    assert_eq!(service.get_type(), HapType::WindowCovering);
    let c = service.get_mut_characteristic(HapType::CurrentPosition).unwrap();
    assert_eq!(c.set_value(Value::Number(33)), Ok(()));
    assert!(matches!(accessory.window_covering.current_position.get_value(), Value::Number(33)));
    let service = accessory.get_mut_service(HapType::AccessoryInformation).unwrap();
    assert!(service.get_mut_characteristic(HapType::CurrentPosition).is_none());
}

#[test]
fn find_service_returns_first_match() {
    let a = WindowCoveringService::new(10, 1);
    let b = WindowCoveringService::new(20, 1);
    let i = AccessoryInformationService::new(1, 1);
    let found = find_service(
        vec![ServiceRef::AccessoryInformation(&i), ServiceRef::WindowCovering(&a), ServiceRef::WindowCovering(&b)],
        HapType::WindowCovering,
    );
    assert_eq!(found.map(|s| s.get_id()), Some(10));
    assert!(find_service(vec![ServiceRef::WindowCovering(&a)], HapType::AccessoryInformation).is_none());
    assert!(find_service(vec![], HapType::WindowCovering).is_none());
    let mut a = a;
    let mut b = b;
    let found = find_mut_service(
        vec![ServiceMut::WindowCovering(&mut b), ServiceMut::WindowCovering(&mut a)],
        HapType::WindowCovering,
    );
    assert_eq!(found.map(|s| s.get_id()), Some(20));
}

#[test]
fn propagation_reaches_present_characteristics_only() {
    let information = AccessoryInformation { accessory_flags: Some(1), ..acme() };
    let mut accessory = WindowCoveringAccessory::new(3, information).unwrap();
    accessory.window_covering.name = Some(Characteristic::new(HapType::Name, Format::String, 20, 3));
    let sink = EventEmitter::new(5);
    accessory.set_event_emitter_on_characteristics(Some(sink));
    assert!(accessory.accessory_information.hardware_revision.is_none());
    assert!(accessory.window_covering.hold_position.is_none());
    let mut reached = 0;
    for service in accessory.get_services() {
        for c in service.get_characteristics() {
            assert_eq!(c.get_event_emitter(), Some(sink));
            reached += 1;
        }
    }
    assert_eq!(reached, 7 + 4);
    assert_eq!(
        accessory.accessory_information.accessory_flags.as_ref().unwrap().get_event_emitter(),
        Some(sink)
    );
    assert_eq!(accessory.window_covering.name.as_ref().unwrap().get_event_emitter(), Some(sink));
}

#[test]
fn propagation_changes_nothing_but_the_sink() {
    let mut accessory = WindowCoveringAccessory::new(3, acme()).unwrap();
    let before = accessory.serialize();
    accessory.set_event_emitter_on_characteristics(Some(EventEmitter::new(5)));
    assert_eq!(accessory.serialize(), before);
    assert_eq!(accessory.get_id(), 3);
    assert!(accessory.window_covering.get_primary());
    assert_eq!(text(&accessory.accessory_information.model), "A1234");
}

#[test]
fn propagation_is_idempotent() {
    let sinks = |a: &WindowCoveringAccessory| -> Vec<Option<EventEmitter>> {
        let mut v = Vec::new();
        for service in a.get_services() {
            for c in service.get_characteristics() {
                v.push(c.get_event_emitter());
            }
        }
        v
    };
    let mut accessory = WindowCoveringAccessory::new(3, acme()).unwrap();
    accessory.set_event_emitter_on_characteristics(Some(EventEmitter::new(5)));
    let once = sinks(&accessory);
    accessory.set_event_emitter_on_characteristics(Some(EventEmitter::new(5)));
    assert_eq!(sinks(&accessory), once);
    assert_eq!(once, vec![Some(EventEmitter::new(5)); 9]);
}

#[test]
fn propagation_of_none_clears_the_sinks() {
    let mut accessory = WindowCoveringAccessory::new(3, acme()).unwrap();
    accessory.set_event_emitter_on_characteristics(Some(EventEmitter::new(5)));
    accessory.set_event_emitter_on_characteristics(None);
    for service in accessory.get_services() {
        for c in service.get_characteristics() {
            assert_eq!(c.get_event_emitter(), None);
        }
    }
}

#[test]
fn mutable_services_in_order() {
    let mut accessory = WindowCoveringAccessory::new(3, acme()).unwrap();
    let services = accessory.get_mut_services();
    let kinds: Vec<HapType> = services.iter().map(|s| s.get_type()).collect();
    assert_eq!(kinds, vec![HapType::AccessoryInformation, HapType::WindowCovering]);
    let mut counts = Vec::new();
    for service in services {
        counts.push(service.get_mut_characteristics().len());
    }
    assert_eq!(counts, vec![6, 3]);
}

#[test]
fn frame_accessory_orders_fields() {
    assert_eq!(frame_accessory("3", &vec![]), "{\"aid\":3,\"services\":[]}");
    assert_eq!(
        frame_accessory("3", &vec!["{}".to_string(), "{}".to_string()]),
        "{\"aid\":3,\"services\":[{},{}]}"
    );
}

#[test]
fn accessory_serializes_aid_then_services() {
    let accessory = WindowCoveringAccessory::new(3, acme()).unwrap();
    let text = accessory.serialize();
    assert!(text.starts_with("{\"aid\":3,\"services\":[{\"iid\":1,\"type\":\"3E\","));
    let json: serde_json::Value = serde_json::from_str(&text).unwrap();
    let services = json["services"].as_array().unwrap();
    assert_eq!(services.len(), 2);
    assert_eq!(services[0]["characteristics"].as_array().unwrap().len(), 6);
    assert_eq!(services[0]["characteristics"][1]["value"].as_str(), Some("Acme"));
    assert_eq!(services[1]["iid"].as_u64(), Some(10));
    assert_eq!(services[1]["primary"].as_bool(), Some(true));
    assert_eq!(services[1]["characteristics"].as_array().unwrap().len(), 3);
    assert_eq!(accessory.serialize(), text);
    assert_eq!(
        accessory.get_services()[1].serialize(),
        accessory.window_covering.serialize()
    );
}

#[test]
fn mutable_service_handle_flags() {
    let mut accessory = WindowCoveringAccessory::new(3, acme()).unwrap();
    {
        let service = accessory.get_mut_service(HapType::AccessoryInformation).unwrap();
        assert!(!service.get_hidden());
        assert!(!service.get_primary());
        service.set_hidden(true);
    }
    assert!(accessory.accessory_information.get_hidden());
    assert!(!accessory.accessory_information.get_primary());
    {
        let service = accessory.get_mut_service(HapType::WindowCovering).unwrap();
        assert!(service.get_primary());
        service.set_primary(false);
    }
    assert!(!accessory.window_covering.get_primary());
    assert!(!accessory.window_covering.get_hidden());
    assert_eq!(accessory.window_covering.get_id(), 10);
}

#[test]
fn lookup_through_service_handle_of_absent_optional() {
    let accessory = WindowCoveringAccessory::new(3, acme()).unwrap();
    let information = accessory.get_service(HapType::AccessoryInformation).unwrap();
    assert!(information.get_characteristic(HapType::HardwareRevision).is_none());
    assert!(information.get_characteristic(HapType::AccessoryFlags).is_none());
    assert_eq!(information.get_characteristic(HapType::Name).map(|c| c.get_id()), Some(5));
}

#[test]
fn optional_fields_add_one_characteristic_each() {
    let count = |hardware_revision: Option<String>, accessory_flags: Option<u32>| {
        let information = AccessoryInformation { hardware_revision, accessory_flags, ..acme() };
        information.to_service(20, 9).unwrap().get_characteristics().len()
    };
    let none = count(None, None);
    assert_eq!(none, 6);
    assert_eq!(count(Some("1.0".to_string()), None), none + 1);
    assert_eq!(count(None, Some(0)), none + 1);
    assert_eq!(count(Some("1.0".to_string()), Some(0)), none + 2);
}

#[test]
fn information_service_fields_hold_their_kinds() {
    let information = AccessoryInformation {
        hardware_revision: Some("1.0".to_string()),
        accessory_flags: Some(3),
        ..acme()
    };
    let service = information.to_service(1, 9).unwrap();
    assert_eq!(service.identify.get_type(), HapType::Identify);
    assert_eq!(service.name.get_type(), HapType::Name);
    assert_eq!(service.hardware_revision.as_ref().unwrap().get_type(), HapType::HardwareRevision);
    assert_eq!(service.accessory_flags.as_ref().unwrap().get_type(), HapType::AccessoryFlags);
    for c in service.get_characteristics() {
        assert_eq!(hap::characteristic::format_for(c.get_type()), Some(c.get_format()));
    }
}

#[test]
fn setters_of_the_information_service() {
    let mut service = acme().to_service(1, 9).unwrap();
    service.set_accessory_flags(Some(Characteristic::accessory_flags(9, 9)));
    let ids: Vec<u64> = service.get_characteristics().iter().map(|c| c.get_id()).collect();
    assert_eq!(ids, vec![2, 3, 4, 5, 6, 7, 9]);
    service.set_hardware_revision(Some(Characteristic::hardware_revision(8, 9)));
    let ids: Vec<u64> = service.get_characteristics().iter().map(|c| c.get_id()).collect();
    assert_eq!(ids, vec![2, 3, 4, 5, 6, 7, 8, 9]);
    service.set_accessory_flags(None);
    assert!(service.accessory_flags.is_none());
    assert_eq!(service.get_characteristics().len(), 7);
    assert_eq!(text(&service.manufacturer), "Acme");
}
