//! Device-side client core for a cloud telemetry and command platform.
//!
//! The library holds the verified logic of the client: decoding inbound
//! action requests from JSON, the name-to-handler registry, the FIFO queue
//! between the ingress and execution loops, construction of the MQTT topics
//! and of the action-status wire payload, and the over-the-air firmware
//! update state machine with its progress reporting.
//!
//! Transport, flash and HTTP calls live with the embedding program, which
//! drives the state machines here and publishes what they hand back.

pub mod action;
pub mod client;
pub mod encode;
pub mod json;
pub mod ota;
pub mod queue;
pub mod registry;

pub use action::Action;
pub use client::ByteBeamClient;
