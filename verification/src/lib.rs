//! Core of a network-attached camera sensor node: the wire message model, a
//! register-level model of the camera sensor, the command dispatcher that
//! turns inbound instructions into response payloads, and the
//! intake/emission pipeline that serializes all hardware access onto one
//! execution context.
//!
//! Transport plumbing (wifi association, the MQTT client, JSON framing) and
//! the raw driver bindings live outside this crate; everything here is
//! plain values and verified logic.

pub mod camera;
pub mod dispatch;
pub mod message;
pub mod pipeline;
pub mod sensor;
