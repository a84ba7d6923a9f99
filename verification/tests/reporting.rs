//! Topics and the action-status wire payload.

use bytebeam_esp_rs::client::{ByteBeamClient, DeviceConfig, QoS};
use bytebeam_esp_rs::ota::{failed_state_label, progress_state_label};

fn demo_client() -> ByteBeamClient<u32> {
    let cfg = DeviceConfig {
        project_id: String::from("demo"),
        broker: String::from("broker.example"),
        port: 8883,
        device_id: String::from("42"),
        ca_certificate: String::from("CA PEM"),
        device_certificate: String::from("CERT PEM"),
        device_private_key: String::from("KEY PEM"),
    };
    ByteBeamClient::init(cfg)
}

#[test]
fn topics_carry_tenant_and_device() {
    let client = demo_client();
    assert_eq!(client.actions_topic(), "/tenants/demo/devices/42/actions");
    let req = client.publish_to_stream("device_shadow", b"[1,2]");
    assert_eq!(req.topic, "/tenants/demo/devices/42/events/device_shadow/jsonarray");
    assert_eq!(req.payload, b"[1,2]".to_vec());
    assert_eq!(req.qos, QoS::AtLeastOnce);
    assert!(!req.retain);
}

#[test]
fn status_report_is_a_single_element_json_array() {
    let client = demo_client();
    let msg = client.publish_action_status("a1", 42, "Progress", None, 1731000000000);
    assert_eq!(msg.topic, "/tenants/demo/devices/42/action/status");
    assert_eq!(msg.qos, QoS::AtLeastOnce);
    assert!(!msg.retain);
    assert_eq!(
        msg.body,
        r#"[{"id":"a1","timestamp":1731000000000,"errors":[],"progress":42,"state":"Progress"}]"#
    );
}

#[test]
fn status_report_lists_error_messages_in_order() {
    let client = demo_client();
    let msg = client.publish_action_status(
        "a2",
        0,
        "Failed",
        Some(&["Failed to toggle LED", "again"]),
        7,
    );
    assert_eq!(
        msg.body,
        r#"[{"id":"a2","timestamp":7,"errors":["Failed to toggle LED","again"],"progress":0,"state":"Failed"}]"#
    );
}

#[test]
fn status_report_escapes_like_the_wire_format() {
    let client = demo_client();
    let msg = client.publish_action_status("a\"1\\", 100, "Done\t\n\u{1f}", None, 0);
    assert_eq!(
        msg.body,
        "[{\"id\":\"a\\\"1\\\\\",\"timestamp\":0,\"errors\":[],\"progress\":100,\"state\":\"Done\\t\\n\\u001f\"}]"
    );
}

#[test]
fn status_report_survives_a_json_parser() {
    let client = demo_client();
    let msg = client.publish_action_status(
        "id with \"quotes\" and\nnewlines",
        99,
        "Progress",
        Some(&["one \\ two"]),
        123456789,
    );
    let doc: serde_json::Value = serde_json::from_str(&msg.body).expect("the body is JSON");
    let arr = doc.as_array().expect("a JSON array");
    assert_eq!(arr.len(), 1);
    let report = &arr[0];
    assert_eq!(
        report.get("id").and_then(|v| v.as_str()),
        Some("id with \"quotes\" and\nnewlines")
    );
    assert_eq!(report.get("timestamp").and_then(|v| v.as_u64()), Some(123456789));
    assert_eq!(report.get("progress").and_then(|v| v.as_u64()), Some(99));
    assert_eq!(report.get("state").and_then(|v| v.as_str()), Some("Progress"));
    let errors = report.get("errors").and_then(|v| v.as_array()).expect("an errors array");
    assert_eq!(errors.len(), 1);
    assert_eq!(errors[0].as_str(), Some("one \\ two"));
}

#[test]
fn status_report_formats_extreme_timestamps() {
    let client = demo_client();
    let msg = client.publish_action_status(
        "a",
        0,
        "Progress",
        None,
        340282366920938463463374607431768211455,
    );
    assert_eq!(
        msg.body,
        r#"[{"id":"a","timestamp":340282366920938463463374607431768211455,"errors":[],"progress":0,"state":"Progress"}]"#
    );
}

#[test]
fn status_report_with_an_empty_error_list_is_like_none() {
    let client = demo_client();
    let with_none = client.publish_action_status("a", 1, "Progress", None, 5);
    let with_empty = client.publish_action_status("a", 1, "Progress", Some(&[]), 5);
    assert_eq!(with_none.body, with_empty.body);
}

#[test]
fn state_labels_match_completion() {
    assert_eq!(progress_state_label(true), "Completed");
    assert_eq!(progress_state_label(false), "Progress");
    assert_eq!(failed_state_label(), "Failed");
}
