//! The registry, dispatch, and the queue between the two loops.

use bytebeam_esp_rs::client::{ByteBeamClient, DeviceConfig};
use bytebeam_esp_rs::queue::ActionQueue;
use bytebeam_esp_rs::Action;

fn demo_client() -> ByteBeamClient<u32> {
    let cfg = DeviceConfig {
        project_id: String::from("demo"),
        broker: String::from("b"),
        port: 1,
        device_id: String::from("d"),
        ca_certificate: String::new(),
        device_certificate: String::new(),
        device_private_key: String::new(),
    };
    ByteBeamClient::init(cfg)
}

fn action_named(name: &str) -> Action {
    Action {
        id: String::from("1"),
        kind: String::from("process"),
        name: String::from(name),
        payload: None,
    }
}

#[test]
fn registered_handler_is_dispatched_unchanged() {
    let mut client = demo_client();
    client.register_action_handle(String::from("toggle"), 7);
    let action = action_named("toggle");
    assert_eq!(client.dispatch(&action), Some(&7));
    // The action the handler would receive is the one that arrived.
    assert_eq!(action.id, "1");
    assert_eq!(action.kind, "process");
    assert_eq!(action.name, "toggle");
    assert_eq!(action.payload, None);
}

#[test]
fn unknown_action_dispatches_no_handler() {
    let mut client = demo_client();
    client.register_action_handle(String::from("toggle"), 7);
    assert_eq!(client.dispatch(&action_named("reboot")), None);
    assert_eq!(client.dispatch(&action_named("")), None);
}

#[test]
fn re_registration_overwrites_silently() {
    let mut client = demo_client();
    client.register_action_handle(String::from("toggle"), 7);
    client.register_action_handle(String::from("blink"), 8);
    client.register_action_handle(String::from("toggle"), 9);
    assert_eq!(client.dispatch(&action_named("toggle")), Some(&9));
    assert_eq!(client.dispatch(&action_named("blink")), Some(&8));
}

#[test]
fn enable_ota_registers_the_reserved_name() {
    let mut client = demo_client();
    client.enable_ota(99);
    assert_eq!(client.dispatch(&action_named("update_firmware")), Some(&99));
}

#[test]
fn queue_is_first_in_first_out() {
    let mut q = ActionQueue::new();
    assert_eq!(q.len(), 0);
    q.enqueue(action_named("a"));
    q.enqueue(action_named("b"));
    q.enqueue(action_named("c"));
    assert_eq!(q.len(), 3);
    assert_eq!(q.dequeue().unwrap().name, "a");
    assert_eq!(q.dequeue().unwrap().name, "b");
    assert_eq!(q.dequeue().unwrap().name, "c");
    assert!(q.dequeue().is_none());
}

#[test]
fn queue_keeps_order_across_interleaved_operations() {
    let mut q = ActionQueue::new();
    q.enqueue(action_named("a"));
    q.enqueue(action_named("b"));
    assert_eq!(q.dequeue().unwrap().name, "a");
    q.enqueue(action_named("c"));
    assert_eq!(q.dequeue().unwrap().name, "b");
    assert_eq!(q.dequeue().unwrap().name, "c");
}
