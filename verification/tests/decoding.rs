//! Decoding inbound frames, update payloads and the bootstrap document.

use bytebeam_esp_rs::action::decode_action;
use bytebeam_esp_rs::client::{ConfigError, DeviceConfig};
use bytebeam_esp_rs::json::{obj_get, parse_json, Json};
use bytebeam_esp_rs::ota::{ota_job_from_payload, ota_job_of_action};
use bytebeam_esp_rs::Action;

#[test]
fn action_round_trip_with_opaque_payload() {
    let frame = br#"{"id":"a1","kind":"process","name":"toggle","payload":"{\"status\":\"ok\"}"}"#;
    let action = decode_action(frame).expect("a well-formed action decodes");
    assert_eq!(action.id, "a1");
    assert_eq!(action.kind, "process");
    assert_eq!(action.name, "toggle");
    assert_eq!(action.payload, Some(String::from("{\"status\":\"ok\"}")));
}

#[test]
fn action_payload_absent_and_null_mean_none() {
    let action = decode_action(br#"{"id":"1","kind":"k","name":"n"}"#).unwrap();
    assert_eq!(action.payload, None);
    let action = decode_action(br#"{"id":"1","kind":"k","name":"n","payload":null}"#).unwrap();
    assert_eq!(action.payload, None);
}

#[test]
fn action_unknown_fields_are_ignored() {
    let frame = br#"{"id":"1","kind":"k","name":"n","extra":[1,-2.5,{"deep":null}]}"#;
    let action = decode_action(frame).unwrap();
    assert_eq!(action.name, "n");
}

#[test]
fn action_rejects_wrong_shapes() {
    assert!(decode_action(b"not json at all").is_none());
    assert!(decode_action(br#""just a string""#).is_none());
    assert!(decode_action(br#"{"id":"1","kind":"k"}"#).is_none());
    assert!(decode_action(br#"{"id":1,"kind":"k","name":"n"}"#).is_none());
    assert!(decode_action(br#"{"id":"1","kind":"k","name":"n","payload":7}"#).is_none());
}

#[test]
fn json_object_lookup_sees_parsed_entries() {
    let doc = parse_json(br#"{"a":1,"b":"two","c":true}"#).expect("parses");
    match &doc {
        Json::Obj(entries) => {
            assert!(matches!(obj_get(entries, "a"), Some(Json::UInt(1))));
            match obj_get(entries, "b") {
                Some(Json::Str(s)) => assert_eq!(s, "two"),
                other => panic!("expected a string, got {:?}", other.is_some()),
            }
            assert!(matches!(obj_get(entries, "c"), Some(Json::Bool(true))));
            assert!(obj_get(entries, "d").is_none());
        }
        _ => panic!("expected an object"),
    }
}

#[test]
fn ota_job_decodes_its_payload() {
    let payload =
        r#"{"url":"https://cloud.example/fw.bin","version":"1.2.0","status":true,"content-length":4096}"#;
    let job = ota_job_from_payload(payload).expect("a well-formed job decodes");
    assert_eq!(job.url, "https://cloud.example/fw.bin");
    assert_eq!(job.version, "1.2.0");
    assert!(job.status);
    assert_eq!(job.content_length, 4096);
}

#[test]
fn ota_job_rejects_wrong_shapes() {
    assert!(ota_job_from_payload("").is_none());
    assert!(ota_job_from_payload(r#"{"url":"u","version":"v","status":true}"#).is_none());
    assert!(ota_job_from_payload(
        r#"{"url":"u","version":"v","status":true,"content-length":-1}"#
    )
    .is_none());
    assert!(ota_job_from_payload(
        r#"{"url":"u","version":"v","status":"yes","content-length":1}"#
    )
    .is_none());
}

#[test]
fn ota_job_of_action_needs_a_payload_that_decodes() {
    let make = |payload: Option<&str>| Action {
        id: String::from("a9"),
        kind: String::from("process"),
        name: String::from("update_firmware"),
        payload: payload.map(String::from),
    };
    assert!(ota_job_of_action(&make(None)).is_none());
    assert!(ota_job_of_action(&make(Some("{}"))).is_none());
    let job = ota_job_of_action(&make(Some(
        r#"{"url":"https://cloud.example/fw.bin","version":"2.0","status":false,"content-length":10}"#,
    )))
    .expect("a decodable payload yields the job");
    assert_eq!(job.version, "2.0");
    assert!(!job.status);
}

#[test]
fn device_config_decodes_the_bootstrap_document() {
    let doc = br#"{
        "project_id": "demo",
        "broker": "broker.example",
        "port": 8883,
        "device_id": "42",
        "authentication": {
            "ca_certificate": "CA PEM",
            "device_certificate": "CERT PEM",
            "device_private_key": "KEY PEM"
        }
    }"#;
    let cfg = DeviceConfig::decode(doc).expect("a well-formed document decodes");
    assert_eq!(cfg.project_id, "demo");
    assert_eq!(cfg.broker, "broker.example");
    assert_eq!(cfg.port, 8883);
    assert_eq!(cfg.device_id, "42");
    assert_eq!(cfg.ca_certificate, "CA PEM");
    assert_eq!(cfg.device_certificate, "CERT PEM");
    assert_eq!(cfg.device_private_key, "KEY PEM");
    assert_eq!(cfg.broker_uri(), "mqtts://broker.example:8883");
}

#[test]
fn device_config_errors_say_which_way_it_failed() {
    assert_eq!(DeviceConfig::decode(b"{{{").unwrap_err(), ConfigError::Syntax);
    assert_eq!(
        DeviceConfig::decode(br#"{"project_id":"p"}"#).unwrap_err(),
        ConfigError::Shape
    );
    let too_big = br#"{
        "project_id": "p", "broker": "b", "port": 4294967296, "device_id": "d",
        "authentication": {
            "ca_certificate": "a", "device_certificate": "b", "device_private_key": "c"
        }
    }"#;
    assert_eq!(DeviceConfig::decode(too_big).unwrap_err(), ConfigError::Shape);
}
