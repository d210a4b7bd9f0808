use smart_home_core::contracts::{DecodeError, DeviceContract, DeviceStatus, DeviceType};
use smart_home_core::controls::{BluetoothDeviceMetadata, Control};
use smart_home_core::dashboard::{DashboardContract, FeatureContract};

fn parse(bytes: &[u8]) -> serde_json::Value {
    serde_json::from_slice(bytes).unwrap()
}

fn slider() -> Control {
    Control {
        control_type: "slider".to_string(),
        label: "Brightness".to_string(),
        value: Some(serde_json::Value::from(80)),
        min: Some(0),
        max: Some(100),
    }
}

fn speaker() -> BluetoothDeviceMetadata {
    BluetoothDeviceMetadata {
        name: "Bluetooth Speaker".to_string(),
        address: "00:11:22:33:44:55".to_string(),
        device_type: "audio".to_string(),
        driver_installed: true,
        driver_version: Some("1.2.0".to_string()),
        last_seen: None,
    }
}

fn lights() -> FeatureContract {
    FeatureContract {
        name: "lights".to_string(),
        tier: "free".to_string(),
        enabled: true,
        controls: Some(vec![slider()]),
        ai_roles: Some(vec!["user_admin".to_string(), "remote_agent".to_string()]),
        bluetooth_devices: Some(vec![speaker()]),
    }
}

fn bare_feature() -> FeatureContract {
    FeatureContract {
        name: "health".to_string(),
        tier: "pro".to_string(),
        enabled: false,
        controls: None,
        ai_roles: None,
        bluetooth_devices: None,
    }
}

#[test]
fn device_contract_new_keeps_fields() {
    let c = DeviceContract::new("Living Room 1", DeviceType::SmartBulb, DeviceStatus::On);
    assert_eq!(c.name, "Living Room 1");
    assert_eq!(c.device_type, DeviceType::SmartBulb);
    assert_eq!(c.status, DeviceStatus::On);
}

#[test]
fn device_contract_round_trip() {
    let kinds = [
        DeviceType::SmartBulb,
        DeviceType::SmartSwitch,
        DeviceType::Sensor,
        DeviceType::SecurityHardwired,
        DeviceType::SecurityWiFi,
        DeviceType::Unknown,
    ];
    let states = [DeviceStatus::On, DeviceStatus::Off, DeviceStatus::Unknown];
    for k in kinds {
        for s in states {
            let c = DeviceContract::new("dev", k, s);
            assert_eq!(DeviceContract::decode(&c.encode()), Ok(c));
        }
    }
}

#[test]
fn device_contract_wire_strings() {
    let c = DeviceContract::new("Porch", DeviceType::SecurityWiFi, DeviceStatus::Off);
    let v = parse(&c.encode());
    assert_eq!(v["name"], "Porch");
    assert_eq!(v["device_type"], "security_wifi");
    assert_eq!(v["status"], "off");
    assert_eq!(DeviceType::SmartBulb.to_wire(), "smart_bulb");
    assert_eq!(DeviceType::SecurityHardwired.to_wire(), "security_hardwired");
    assert_eq!(DeviceStatus::On.to_wire(), "on");
    assert_eq!(DeviceStatus::Unknown.to_wire(), "unknown");
}

#[test]
fn unknown_device_type_falls_back() {
    let text = br#"{"name":"x","device_type":"not_a_real_type","status":"on"}"#;
    let c = DeviceContract::decode(text).unwrap();
    assert_eq!(c.device_type, DeviceType::Unknown);
    assert_eq!(c.status, DeviceStatus::On);
    assert_eq!(DeviceType::from_wire("not_a_real_type"), DeviceType::Unknown);
    assert_eq!(DeviceStatus::from_wire("dim"), DeviceStatus::Unknown);
}

#[test]
fn unknown_fields_are_ignored() {
    let text = br#"{"name":"x","device_type":"sensor","status":"off","room":"attic"}"#;
    let c = DeviceContract::decode(text).unwrap();
    assert_eq!(c, DeviceContract::new("x", DeviceType::Sensor, DeviceStatus::Off));
}

#[test]
fn malformed_payloads_are_rejected() {
    assert_eq!(DeviceContract::decode(b"not json"), Err(DecodeError::MalformedPayload));
    assert_eq!(DeviceContract::decode(b"[1,2]"), Err(DecodeError::MalformedPayload));
    assert_eq!(
        DeviceContract::decode(br#"{"name":"x","device_type":"sensor"}"#),
        Err(DecodeError::MalformedPayload)
    );
    assert_eq!(
        DeviceContract::decode(br#"{"name":3,"device_type":"sensor","status":"on"}"#),
        Err(DecodeError::MalformedPayload)
    );
}

#[test]
fn control_round_trip() {
    let c = slider();
    assert_eq!(Control::decode(&c.encode()), Ok(c));
    let bare = Control {
        control_type: "toggle".to_string(),
        label: "Power".to_string(),
        value: None,
        min: None,
        max: None,
    };
    let v = parse(&bare.encode());
    assert!(v.get("value").is_none());
    assert!(v.get("min").is_none());
    assert_eq!(Control::decode(&bare.encode()), Ok(bare));
}

#[test]
fn control_null_value_is_kept() {
    let c = Control::decode(br#"{"control_type":"t","label":"l","value":null}"#).unwrap();
    assert_eq!(c.value, Some(serde_json::Value::Null));
    assert_eq!(c.min, None);
}

#[test]
fn control_bound_out_of_range_is_rejected() {
    let text = br#"{"control_type":"t","label":"l","min":3000000000}"#;
    assert_eq!(Control::decode(text), Err(DecodeError::MalformedPayload));
}

#[test]
fn bluetooth_metadata_round_trip() {
    let d = speaker();
    let v = parse(&d.encode());
    assert_eq!(v["driver_version"], "1.2.0");
    assert!(v.get("last_seen").is_none());
    assert_eq!(BluetoothDeviceMetadata::decode(&d.encode()), Ok(d));
}

#[test]
fn feature_round_trip() {
    let f = lights();
    assert_eq!(FeatureContract::decode(&f.encode()), Ok(f));
    let b = bare_feature();
    assert_eq!(FeatureContract::decode(&b.encode()), Ok(b));
}

#[test]
fn absent_controls_are_omitted() {
    let f = bare_feature();
    let v = parse(&f.encode());
    assert!(v.get("controls").is_none());
    assert!(v.get("ai_roles").is_none());
    let back = FeatureContract::decode(&f.encode()).unwrap();
    assert_eq!(back.controls, None);
}

#[test]
fn empty_controls_stay_empty() {
    let mut f = bare_feature();
    f.controls = Some(Vec::new());
    let v = parse(&f.encode());
    assert_eq!(v["controls"], serde_json::Value::Array(Vec::new()));
    assert_eq!(FeatureContract::decode(&f.encode()).unwrap().controls, Some(Vec::new()));
}

#[test]
fn malformed_list_item_fails_the_feature() {
    let text = br#"{"name":"n","tier":"t","enabled":true,"ai_roles":["a",2]}"#;
    assert_eq!(FeatureContract::decode(text), Err(DecodeError::MalformedPayload));
}

#[test]
fn dashboard_round_trip() {
    let d = DashboardContract {
        user_tier: "pro".to_string(),
        features: vec![lights(), bare_feature()],
        ai_role: "system_admin".to_string(),
    };
    assert_eq!(DashboardContract::decode(&d.encode()), Ok(d));
}

#[test]
fn dashboard_without_features_is_malformed() {
    let text = br#"{"user_tier":"pro","ai_role":"user_admin"}"#;
    assert_eq!(DashboardContract::decode(text), Err(DecodeError::MalformedPayload));
}
