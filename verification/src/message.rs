//! The wire data model: the message envelope and the tagged payload
//! vocabulary exchanged between the controller and this node.

use vstd::prelude::*;

verus! {

/// A flat record of the 13 tunable camera sensor fields carried on the wire.
/// Out-of-range values are representable here; they are rejected at the
/// hardware boundary, not by the data model.
#[derive(Clone, Copy, Debug, PartialEq, Eq, Structural)]
pub struct CameraSensorConfig {
    pub brightness: i8,
    pub contrast: i8,
    pub saturation: i8,
    pub sharpness: i8,
    pub de_noise: u8,
    pub special_effect: u8,
    pub wb_mode: u8,
    pub awb: bool,
    pub awb_gain: bool,
    pub gain_ceiling: u8,
    pub lens_correction: bool,
    pub horizontal_mirror: bool,
    pub vertical_flip: bool,
}

/// The sensor configuration union; one variant per sensor kind.
#[derive(Clone, Copy, Debug, PartialEq, Eq, Structural)]
pub enum SensorConfig {
    Camera(CameraSensorConfig),
}

/// One captured reading; for the camera this is a fully-owned copy of one
/// frame's encoded bytes.
#[derive(Clone, Debug)]
pub enum SensorData {
    Camera { frame_buffer: Vec<u8> },
}

/// A controller-to-node request.
#[derive(Clone, Copy, Debug, PartialEq, Eq, Structural)]
pub enum Instruction {
    ReadSensor,
    ReadSensorConfig,
    WriteSensorConfig(SensorConfig),
}

/// The tagged union of all message contents; exactly one variant is active.
#[derive(Clone, Debug)]
pub enum Payload {
    Connected,
    Disconnected,
    Instruction(Instruction),
    SensorReading(SensorData),
    SensorConfig(SensorConfig),
    Error(String),
}

/// The message envelope: the sending node's identity, the intended
/// recipient, and the payload.
#[derive(Clone, Debug)]
pub struct Message {
    pub client_id: String,
    pub recipient: String,
    pub payload: Box<Payload>,
}

impl Message {
    pub fn new(client_id: String, recipient: String, payload: Payload) -> (r: Self)
        ensures
            r.client_id@ == client_id@,
            r.recipient@ == recipient@,
            *r.payload == payload,
    {
        Self { client_id, recipient, payload: Box::new(payload) }
    }

    pub fn new_err(client_id: String, recipient: String, message: String) -> (r: Self)
        ensures
            r.client_id@ == client_id@,
            r.recipient@ == recipient@,
            *r.payload matches Payload::Error(text) && text@ == message@,
    {
        Self { client_id, recipient, payload: Box::new(Payload::Error(message)) }
    }

    pub fn new_connected(client_id: String, recipient: String) -> (r: Self)
        ensures
            r.client_id@ == client_id@,
            r.recipient@ == recipient@,
            *r.payload is Connected,
    {
        Self::new(client_id, recipient, Payload::Connected)
    }
}

} // verus!
