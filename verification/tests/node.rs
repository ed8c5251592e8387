use flock_camera_sensor::camera::{Camera, CameraConfig, FrameSize, PixelFormat};
use flock_camera_sensor::dispatch::{dispatch, handle_flock_message, sensor_config};
use flock_camera_sensor::message::{
    CameraSensorConfig, Instruction, Message, Payload, SensorConfig, SensorData,
};
use flock_camera_sensor::pipeline::{intake_step, NodeIdentity, ResponseQueue, TransportEvent};

fn valid_cfg() -> CameraSensorConfig {
    CameraSensorConfig {
        brightness: 2,
        contrast: 0,
        saturation: 0,
        sharpness: 0,
        de_noise: 0,
        special_effect: 0,
        wb_mode: 0,
        awb: true,
        awb_gain: true,
        gain_ceiling: 0,
        lens_correction: true,
        horizontal_mirror: false,
        vertical_flip: false,
    }
}

fn ident() -> NodeIdentity {
    NodeIdentity {
        client_id: "flock-client-node-1".to_string(),
        controller_topic: "controller".to_string(),
    }
}

fn instruction_message(instruction: Instruction) -> Message {
    Message::new(
        "controller".to_string(),
        "flock-client-node-1".to_string(),
        Payload::Instruction(instruction),
    )
}

#[test]
fn message_new_keeps_envelope_and_payload() {
    let m = Message::new("a".to_string(), "b".to_string(), Payload::Disconnected);
    assert_eq!(m.client_id, "a");
    assert_eq!(m.recipient, "b");
    assert!(matches!(*m.payload, Payload::Disconnected));
}

#[test]
fn message_new_err_wraps_text() {
    let m = Message::new_err("a".to_string(), "b".to_string(), "boom".to_string());
    assert_eq!(m.client_id, "a");
    assert_eq!(m.recipient, "b");
    match *m.payload {
        Payload::Error(text) => assert_eq!(text, "boom"),
        _ => panic!("expected an error payload"),
    }
}

#[test]
fn message_new_connected_is_connected() {
    let m = Message::new_connected("a".to_string(), "b".to_string());
    assert!(matches!(*m.payload, Payload::Connected));
}

#[test]
fn default_camera_config_matches_board_wiring() {
    let cfg = CameraConfig::default();
    assert_eq!(cfg.pin_pwdn, 32);
    assert_eq!(cfg.pin_reset, -1);
    assert_eq!(cfg.xclk_freq_hz, 20000000);
    assert_eq!(cfg.jpeg_quality, 12);
    assert_eq!(cfg.fb_count, 1);
    assert!(matches!(cfg.pixel_format, PixelFormat::RGB565));
    assert!(matches!(cfg.frame_size, FrameSize::FrameSizeQVGA));
}

#[test]
fn setters_accept_in_range_and_refuse_out_of_range() {
    let mut cam = Camera::init(CameraConfig::default());
    assert!(cam.sensor.set_brightness(2).is_ok());
    assert_eq!(cam.sensor.status().brightness, 2);
    let e = cam.sensor.set_brightness(3).unwrap_err();
    assert_eq!(e.describe(), "set_brightness failed: unsupported value");
    assert_eq!(cam.sensor.status().brightness, 2);
    let e = cam.sensor.set_gain_ceiling(7).unwrap_err();
    assert_eq!(e.describe(), "set_gain_ceiling failed: unsupported value");
    assert!(cam.sensor.set_gain_ceiling(6).is_ok());
    assert_eq!(cam.sensor.status().gain_ceiling, 6);
    assert!(cam.sensor.set_vflip(true).is_ok());
    assert!(cam.sensor.status().vertical_flip);
}

#[test]
fn startup_tuning_always_succeeds() {
    let mut cam = Camera::init(CameraConfig::default());
    assert!(sensor_config(&mut cam).is_ok());
    let s = cam.sensor.status();
    assert_eq!(s.brightness, 2);
    assert!(s.awb);
    assert!(s.awb_gain);
    assert!(s.lenc);
    assert_eq!(s.aec_value, 300);
    assert!(!s.aec);
    assert!(s.aec2);
    assert!(s.wpc);
    assert!(!s.bpc);
    assert!(s.dcw);
    assert!(!s.color_bar);
    // geometry and quality keep their power-on values
    assert_eq!(s.quality, 12);
    assert!(matches!(s.frame_size, FrameSize::FrameSizeQVGA));
}

#[test]
fn projection_keeps_the_thirteen_wire_fields() {
    let mut cam = Camera::init(CameraConfig::default());
    sensor_config(&mut cam).unwrap();
    let projected = CameraSensorConfig::from(cam.sensor.status());
    assert_eq!(projected.brightness, 2);
    assert!(projected.awb);
    assert!(projected.awb_gain);
    assert!(projected.lens_correction);
    assert_eq!(projected.gain_ceiling, 0);
    assert!(!projected.horizontal_mirror);
    assert!(!projected.vertical_flip);
}

#[test]
fn write_then_read_round_trips() {
    let mut cam = Camera::init(CameraConfig::default());
    let cfg = CameraSensorConfig {
        brightness: -2,
        contrast: 1,
        saturation: -1,
        sharpness: 2,
        de_noise: 8,
        special_effect: 6,
        wb_mode: 4,
        awb: false,
        awb_gain: true,
        gain_ceiling: 6,
        lens_correction: false,
        horizontal_mirror: true,
        vertical_flip: true,
    };
    let w = dispatch(&mut cam, Instruction::WriteSensorConfig(SensorConfig::Camera(cfg)));
    match w {
        Some(Payload::SensorConfig(SensorConfig::Camera(reported))) => assert_eq!(reported, cfg),
        _ => panic!("expected a refreshed configuration snapshot"),
    }
    let r = dispatch(&mut cam, Instruction::ReadSensorConfig);
    match r {
        Some(Payload::SensorConfig(SensorConfig::Camera(read_back))) => assert_eq!(read_back, cfg),
        _ => panic!("expected a configuration snapshot"),
    }
}

#[test]
fn read_sensor_with_no_frame_is_dropped() {
    let mut cam = Camera::init(CameraConfig::default());
    assert!(dispatch(&mut cam, Instruction::ReadSensor).is_none());
    assert_eq!(cam.acquired_count(), 0);
    assert_eq!(cam.released_count(), 0);
}

#[test]
fn read_sensor_copies_the_frame_bytes() {
    let mut cam = Camera::init(CameraConfig::default());
    let frame = vec![0xffu8, 0xd8, 0x01, 0x02, 0xff, 0xd9];
    cam.stage_frame(frame.clone());
    match dispatch(&mut cam, Instruction::ReadSensor) {
        Some(Payload::SensorReading(SensorData::Camera { frame_buffer })) => {
            assert_eq!(frame_buffer, frame);
            assert_eq!(frame_buffer.len(), frame.len());
        }
        _ => panic!("expected a sensor reading"),
    }
    // a second read finds no frame ready and is dropped
    assert!(dispatch(&mut cam, Instruction::ReadSensor).is_none());
}

#[test]
fn guard_accounting_never_drifts_past_one() {
    let mut cam = Camera::init(CameraConfig::default());
    cam.stage_frame(vec![1, 2, 3]);
    cam.stage_frame(vec![4, 5, 6]);
    assert_eq!(cam.acquired_count() - cam.released_count(), 0);
    let fb = cam.fb_get().unwrap();
    assert_eq!(cam.acquired_count() - cam.released_count(), 1);
    // the driver hands out no second buffer while one is borrowed
    assert!(cam.fb_get().is_none());
    assert_eq!(fb.len(), 3);
    assert_eq!(fb.data(), &[1, 2, 3]);
    cam.fb_return(fb);
    assert_eq!(cam.acquired_count() - cam.released_count(), 0);
    // the dispatcher releases every buffer it acquires
    dispatch(&mut cam, Instruction::ReadSensor);
    assert_eq!(cam.acquired_count(), 2);
    assert_eq!(cam.released_count(), 2);
}

#[test]
fn partial_write_stops_at_the_failing_field() {
    let mut cam = Camera::init(CameraConfig::default());
    let mut cfg = valid_cfg();
    cfg.brightness = 1;
    cfg.gain_ceiling = 255;
    cfg.vertical_flip = true;
    let r = dispatch(&mut cam, Instruction::WriteSensorConfig(SensorConfig::Camera(cfg)));
    match r {
        Some(Payload::Error(text)) => {
            assert_eq!(text, "set_gain_ceiling failed: unsupported value");
        }
        _ => panic!("expected an error payload"),
    }
    let s = cam.sensor.status();
    // fields before the failing operation stay applied
    assert_eq!(s.brightness, 1);
    assert!(s.awb);
    assert!(s.awb_gain);
    // the failing field and everything after it stay untouched
    assert_eq!(s.gain_ceiling, 0);
    assert!(!s.lenc);
    assert!(!s.vertical_flip);
}

#[test]
fn out_of_range_write_leaves_brightness_applied_before_bad_wb_mode() {
    let mut cam = Camera::init(CameraConfig::default());
    let mut cfg = valid_cfg();
    cfg.wb_mode = 9;
    let r = dispatch(&mut cam, Instruction::WriteSensorConfig(SensorConfig::Camera(cfg)));
    match r {
        Some(Payload::Error(text)) => assert_eq!(text, "set_wb_mode failed: unsupported value"),
        _ => panic!("expected an error payload"),
    }
    let s = cam.sensor.status();
    assert_eq!(s.brightness, 2);
    assert_eq!(s.wb_mode, 0);
    assert!(!s.awb);
}

#[test]
fn non_instruction_payloads_are_ignored() {
    let mut cam = Camera::init(CameraConfig::default());
    let m = Message::new("c".to_string(), "n".to_string(), Payload::Connected);
    assert!(handle_flock_message(&mut cam, m).is_none());
    let m = Message::new("c".to_string(), "n".to_string(), Payload::Error("x".to_string()));
    assert!(handle_flock_message(&mut cam, m).is_none());
}

#[test]
fn intake_announces_connection_and_reports_decode_failures() {
    let id = ident();
    let mut cam = Camera::init(CameraConfig::default());
    let m = intake_step(&id, &mut cam, TransportEvent::Connected).unwrap();
    assert_eq!(m.client_id, "flock-client-node-1");
    assert_eq!(m.recipient, "controller");
    assert!(matches!(*m.payload, Payload::Connected));
    let m = intake_step(&id, &mut cam, TransportEvent::DecodeFailure("bad frame".to_string()))
        .unwrap();
    match *m.payload {
        Payload::Error(text) => assert_eq!(text, "bad frame"),
        _ => panic!("expected an error payload"),
    }
    assert!(intake_step(&id, &mut cam, TransportEvent::Other).is_none());
}

#[test]
fn queue_is_first_in_first_out() {
    let mut q = ResponseQueue::new();
    assert!(q.dequeue().is_none());
    q.enqueue(Message::new("c".to_string(), "n".to_string(), Payload::Connected));
    q.enqueue(Message::new_err("c".to_string(), "n".to_string(), "one".to_string()));
    q.enqueue(Message::new_err("c".to_string(), "n".to_string(), "two".to_string()));
    assert_eq!(q.len(), 3);
    assert!(matches!(*q.dequeue().unwrap().payload, Payload::Connected));
    match *q.dequeue().unwrap().payload {
        Payload::Error(text) => assert_eq!(text, "one"),
        _ => panic!("expected the first error"),
    }
    match *q.dequeue().unwrap().payload {
        Payload::Error(text) => assert_eq!(text, "two"),
        _ => panic!("expected the second error"),
    }
    assert!(q.dequeue().is_none());
}

#[test]
fn three_instruction_stream_yields_three_ordered_responses() {
    let id = ident();
    let mut cam = Camera::init(CameraConfig::default());
    sensor_config(&mut cam).unwrap();
    let frame = vec![9u8, 8, 7, 6];
    cam.stage_frame(frame.clone());
    let mut q = ResponseQueue::new();

    let mut written = valid_cfg();
    written.brightness = 2;
    let stream = vec![
        Instruction::ReadSensorConfig,
        Instruction::WriteSensorConfig(SensorConfig::Camera(written)),
        Instruction::ReadSensor,
    ];
    for instruction in stream {
        if let Some(m) = intake_step(&id, &mut cam, TransportEvent::Received(
            instruction_message(instruction),
        )) {
            q.enqueue(m);
        }
    }
    assert_eq!(q.len(), 3);

    let first = q.dequeue().unwrap();
    assert_eq!(first.client_id, "flock-client-node-1");
    assert_eq!(first.recipient, "controller");
    match *first.payload {
        Payload::SensorConfig(SensorConfig::Camera(snapshot)) => {
            assert_eq!(snapshot.brightness, 2);
            assert!(snapshot.awb);
        }
        _ => panic!("expected the configuration snapshot"),
    }

    let second = q.dequeue().unwrap();
    match *second.payload {
        Payload::SensorConfig(SensorConfig::Camera(updated)) => assert_eq!(updated, written),
        _ => panic!("expected the refreshed configuration snapshot"),
    }

    let third = q.dequeue().unwrap();
    match *third.payload {
        Payload::SensorReading(SensorData::Camera { frame_buffer }) => {
            assert_eq!(frame_buffer, frame);
        }
        _ => panic!("expected the sensor reading"),
    }
    assert!(q.dequeue().is_none());
}
