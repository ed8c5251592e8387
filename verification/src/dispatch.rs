//! The command dispatcher: a pure mapping from an inbound instruction and
//! the camera's state to an outbound response payload.
//!
//! A configuration write applies the 13 wire fields in a fixed documented
//! order and aborts at the first register operation the hardware refuses;
//! the fields already applied stay applied (no rollback). The spec functions
//! here pin that down exactly: `apply_upto` is the register file after a
//! prefix of the ordered writes, `first_failure` is where the ordered writes
//! stop, and `dispatch_post` is the full instruction/response relation.

use vstd::prelude::*;
use vstd::slice::slice_to_vec;

use crate::camera::{Camera, CameraView};
use crate::message::{CameraSensorConfig, Instruction, Message, Payload, SensorConfig, SensorData};
use crate::sensor::{
    denoise_ok, fault_text, gain_ceiling_ok, level_ok, project, special_effect_ok, wb_mode_ok,
    HardwareFault, RegisterParam, SensorHandle, SensorStatus,
};

verus! {

/// Every numeric field of a configuration lies in its documented hardware
/// range; exactly then does a configuration write succeed in full.
pub open spec fn config_ok(cfg: CameraSensorConfig) -> bool {
    &&& level_ok(cfg.brightness as int)
    &&& level_ok(cfg.contrast as int)
    &&& level_ok(cfg.saturation as int)
    &&& level_ok(cfg.sharpness as int)
    &&& denoise_ok(cfg.de_noise as int)
    &&& special_effect_ok(cfg.special_effect as int)
    &&& wb_mode_ok(cfg.wb_mode as int)
    &&& gain_ceiling_ok(cfg.gain_ceiling as int)
}

/// The register file after the first `n` writes of the documented order
/// (brightness first, vertical flip last): field `i` of the order holds the
/// written value once `n` passes it, and every other register is untouched.
pub open spec fn apply_upto(s: SensorStatus, cfg: CameraSensorConfig, n: int) -> SensorStatus {
    SensorStatus {
        brightness: if n >= 1 { cfg.brightness } else { s.brightness },
        contrast: if n >= 2 { cfg.contrast } else { s.contrast },
        saturation: if n >= 3 { cfg.saturation } else { s.saturation },
        sharpness: if n >= 4 { cfg.sharpness } else { s.sharpness },
        de_noise: if n >= 5 { cfg.de_noise } else { s.de_noise },
        special_effect: if n >= 6 { cfg.special_effect } else { s.special_effect },
        wb_mode: if n >= 7 { cfg.wb_mode } else { s.wb_mode },
        awb: if n >= 8 { cfg.awb } else { s.awb },
        awb_gain: if n >= 9 { cfg.awb_gain } else { s.awb_gain },
        gain_ceiling: if n >= 10 { cfg.gain_ceiling } else { s.gain_ceiling },
        lenc: if n >= 11 { cfg.lens_correction } else { s.lenc },
        horizontal_mirror: if n >= 12 { cfg.horizontal_mirror } else { s.horizontal_mirror },
        vertical_flip: if n >= 13 { cfg.vertical_flip } else { s.vertical_flip },
        ..s
    }
}

/// Position in the documented write order at which the hardware refuses a
/// value; 13 when every field is acceptable and the write runs to the end.
/// Only the range-checked fields can be refused.
pub open spec fn first_failure(cfg: CameraSensorConfig) -> int {
    if !level_ok(cfg.brightness as int) {
        0
    } else if !level_ok(cfg.contrast as int) {
        1
    } else if !level_ok(cfg.saturation as int) {
        2
    } else if !level_ok(cfg.sharpness as int) {
        3
    } else if !denoise_ok(cfg.de_noise as int) {
        4
    } else if !special_effect_ok(cfg.special_effect as int) {
        5
    } else if !wb_mode_ok(cfg.wb_mode as int) {
        6
    } else if !gain_ceiling_ok(cfg.gain_ceiling as int) {
        9
    } else {
        13
    }
}

/// The first register operation of the documented write order that the
/// hardware refuses, if any; it is what the reported fault names.
pub open spec fn first_bad_of(cfg: CameraSensorConfig) -> Option<RegisterParam> {
    if !level_ok(cfg.brightness as int) {
        Some(RegisterParam::Brightness)
    } else if !level_ok(cfg.contrast as int) {
        Some(RegisterParam::Contrast)
    } else if !level_ok(cfg.saturation as int) {
        Some(RegisterParam::Saturation)
    } else if !level_ok(cfg.sharpness as int) {
        Some(RegisterParam::Sharpness)
    } else if !denoise_ok(cfg.de_noise as int) {
        Some(RegisterParam::DeNoise)
    } else if !special_effect_ok(cfg.special_effect as int) {
        Some(RegisterParam::SpecialEffect)
    } else if !wb_mode_ok(cfg.wb_mode as int) {
        Some(RegisterParam::WbMode)
    } else if !gain_ceiling_ok(cfg.gain_ceiling as int) {
        Some(RegisterParam::GainCeiling)
    } else {
        None
    }
}

/// The register file the ordered write sequence leaves behind: every write
/// whose range checks (its own and all before it) pass lands, and the
/// sequence stops at the first refusal.
#[verifier::rlimit(100)]
fn merged_status(s0: SensorStatus, cfg: &CameraSensorConfig) -> (r: SensorStatus)
    ensures
        r == apply_upto(s0, *cfg, first_failure(*cfg)),
{
    let b_ok = -2 <= cfg.brightness && cfg.brightness <= 2;
    let c_ok = -2 <= cfg.contrast && cfg.contrast <= 2;
    let sa_ok = -2 <= cfg.saturation && cfg.saturation <= 2;
    let sh_ok = -2 <= cfg.sharpness && cfg.sharpness <= 2;
    let dn_ok = cfg.de_noise <= 8;
    let se_ok = cfg.special_effect <= 6;
    let wb_ok = cfg.wb_mode <= 4;
    let gc_ok = cfg.gain_ceiling <= 6;
    // a write lands exactly when every range check up to it passed
    let p1 = b_ok;
    let p2 = p1 && c_ok;
    let p3 = p2 && sa_ok;
    let p4 = p3 && sh_ok;
    let p5 = p4 && dn_ok;
    let p6 = p5 && se_ok;
    let p7 = p6 && wb_ok;
    let p10 = p7 && gc_ok;
    SensorStatus {
        brightness: if p1 { cfg.brightness } else { s0.brightness },
        contrast: if p2 { cfg.contrast } else { s0.contrast },
        saturation: if p3 { cfg.saturation } else { s0.saturation },
        sharpness: if p4 { cfg.sharpness } else { s0.sharpness },
        de_noise: if p5 { cfg.de_noise } else { s0.de_noise },
        special_effect: if p6 { cfg.special_effect } else { s0.special_effect },
        wb_mode: if p7 { cfg.wb_mode } else { s0.wb_mode },
        awb: if p7 { cfg.awb } else { s0.awb },
        awb_gain: if p7 { cfg.awb_gain } else { s0.awb_gain },
        gain_ceiling: if p10 { cfg.gain_ceiling } else { s0.gain_ceiling },
        lenc: if p10 { cfg.lens_correction } else { s0.lenc },
        horizontal_mirror: if p10 { cfg.horizontal_mirror } else { s0.horizontal_mirror },
        vertical_flip: if p10 { cfg.vertical_flip } else { s0.vertical_flip },
        ..s0
    }
}

/// The first refused write of the ordered sequence, as the fault the
/// hardware boundary reports; nothing when every range check passes.
fn check_config(cfg: &CameraSensorConfig) -> (r: Option<HardwareFault>)
    ensures
        match r {
            Some(e) => Some(e.param) == first_bad_of(*cfg),
            None => first_bad_of(*cfg) is None,
        },
        r is None <==> config_ok(*cfg),
{
    if cfg.brightness < -2 || cfg.brightness > 2 {
        Some(HardwareFault { param: RegisterParam::Brightness })
    } else if cfg.contrast < -2 || cfg.contrast > 2 {
        Some(HardwareFault { param: RegisterParam::Contrast })
    } else if cfg.saturation < -2 || cfg.saturation > 2 {
        Some(HardwareFault { param: RegisterParam::Saturation })
    } else if cfg.sharpness < -2 || cfg.sharpness > 2 {
        Some(HardwareFault { param: RegisterParam::Sharpness })
    } else if cfg.de_noise > 8 {
        Some(HardwareFault { param: RegisterParam::DeNoise })
    } else if cfg.special_effect > 6 {
        Some(HardwareFault { param: RegisterParam::SpecialEffect })
    } else if cfg.wb_mode > 4 {
        Some(HardwareFault { param: RegisterParam::WbMode })
    } else if cfg.gain_ceiling > 6 {
        Some(HardwareFault { param: RegisterParam::GainCeiling })
    } else {
        None
    }
}

/// The ordered write sequence against the register file: apply what the
/// hardware accepts, then report the first refusal, if any.
#[verifier::rlimit(100)]
fn apply_ordered_writes(s: &mut SensorHandle, cfg: &CameraSensorConfig) -> (r: Result<
    (),
    HardwareFault,
>)
    ensures
        r is Ok <==> config_ok(*cfg),
        final(s).regs() == apply_upto(old(s).regs(), *cfg, first_failure(*cfg)),
        r matches Err(e) ==> Some(e.param) == first_bad_of(*cfg),
        final(s).id_regs() == old(s).id_regs(),
{
    s.status = merged_status(s.status, cfg);
    match check_config(cfg) {
        Some(e) => Err(e),
        None => Ok(()),
    }
}

/// Apply all 13 wire fields to the hardware in the documented order,
/// stopping at the first refused operation. On success the register file
/// holds every written field; on failure it holds exactly the fields that
/// preceded the refused one, and the fault names the refused operation.
pub fn set_sensor_config(cam: &mut Camera, cfg: &CameraSensorConfig) -> (r: Result<
    (),
    HardwareFault,
>)
    ensures
        r is Ok <==> config_ok(*cfg),
        final(cam)@.regs == apply_upto(old(cam)@.regs, *cfg, first_failure(*cfg)),
        r matches Err(e) ==> Some(e.param) == first_bad_of(*cfg),
        final(cam)@.frames == old(cam)@.frames,
        final(cam)@.acquired == old(cam)@.acquired,
        final(cam)@.released == old(cam)@.released,
{
    apply_ordered_writes(&mut cam.sensor, cfg)
}

/// The full instruction/response relation of the dispatcher: how the
/// camera's state changes and which payload, if any, answers the
/// instruction.
pub open spec fn dispatch_post(
    pre: CameraView,
    post: CameraView,
    instruction: Instruction,
    r: Option<Payload>,
) -> bool {
    match instruction {
        Instruction::ReadSensor => {
            if pre.frames.len() > 0 {
                &&& r matches Some(Payload::SensorReading(SensorData::Camera { frame_buffer }))
                    && frame_buffer@ == pre.frames[0]
                &&& post.regs == pre.regs
                &&& post.frames == pre.frames.drop_first()
                &&& post.acquired == pre.acquired + 1
                &&& post.released == pre.released + 1
            } else {
                r is None && post == pre
            }
        },
        Instruction::ReadSensorConfig => {
            &&& r matches Some(Payload::SensorConfig(SensorConfig::Camera(c))) && c == project(
                pre.regs,
            )
            &&& post == pre
        },
        Instruction::WriteSensorConfig(SensorConfig::Camera(cfg)) => {
            &&& post.frames == pre.frames
            &&& post.acquired == pre.acquired
            &&& post.released == pre.released
            &&& post.regs == apply_upto(pre.regs, cfg, first_failure(cfg))
            &&& if config_ok(cfg) {
                r matches Some(Payload::SensorConfig(SensorConfig::Camera(c))) && c == project(
                    post.regs,
                )
            } else {
                (match first_bad_of(cfg) {
                    Some(p) => r matches Some(Payload::Error(t)) && t@ == fault_text(p),
                    None => false,
                })
            }
        },
    }
}

/// Serve one instruction against the camera. Reading a frame when none is
/// ready is not an error: the request is dropped. The dispatcher leaves no
/// frame borrow outstanding.
pub fn dispatch(cam: &mut Camera, instruction: Instruction) -> (r: Option<Payload>)
    requires
        old(cam).inv(),
        old(cam).idle(),
        old(cam)@.acquired < u64::MAX,
    ensures
        final(cam).inv(),
        final(cam).idle(),
        dispatch_post(old(cam)@, final(cam)@, instruction, r),
{
    match instruction {
        Instruction::ReadSensor => {
            match cam.fb_get() {
                Some(fb) => {
                    let frame_buffer = slice_to_vec(fb.data());
                    cam.fb_return(fb);
                    Some(Payload::SensorReading(SensorData::Camera { frame_buffer }))
                },
                None => None,
            }
        },
        Instruction::ReadSensorConfig => {
            let status = cam.sensor().status();
            Some(Payload::SensorConfig(SensorConfig::Camera(CameraSensorConfig::from(status))))
        },
        Instruction::WriteSensorConfig(cfg) => {
            let SensorConfig::Camera(cam_cfg) = cfg;
            match set_sensor_config(cam, &cam_cfg) {
                Err(e) => Some(Payload::Error(e.describe())),
                Ok(_) => {
                    let status = cam.sensor().status();
                    Some(
                        Payload::SensorConfig(
                            SensorConfig::Camera(CameraSensorConfig::from(status)),
                        ),
                    )
                },
            }
        },
    }
}

/// Serve one inbound message: only the `Instruction` payload is actionable
/// server-side; every other payload is ignored without a response.
pub fn handle_flock_message(cam: &mut Camera, msg: Message) -> (r: Option<Payload>)
    requires
        old(cam).inv(),
        old(cam).idle(),
        old(cam)@.acquired < u64::MAX,
    ensures
        final(cam).inv(),
        final(cam).idle(),
        (*msg.payload) matches Payload::Instruction(instruction) ==> dispatch_post(
            old(cam)@,
            final(cam)@,
            instruction,
            r,
        ),
        !((*msg.payload) is Instruction) ==> r is None && final(cam)@ == old(cam)@,
{
    match *msg.payload {
        Payload::Instruction(instruction) => dispatch(cam, instruction),
        _ => None,
    }
}

/// The register file after the node's fixed startup tuning: the values the
/// node always runs with, applied right after driver initialization.
/// Geometry, quality, sharpness and de-noise keep their power-on values.
pub open spec fn startup_regs(s: SensorStatus) -> SensorStatus {
    SensorStatus {
        brightness: 2,
        contrast: 0,
        saturation: 0,
        special_effect: 0,
        awb: true,
        awb_gain: true,
        wb_mode: 0,
        aec: false,
        aec2: true,
        ae_level: 0,
        aec_value: 300,
        agc: true,
        agc_gain: 0,
        gain_ceiling: 0,
        bpc: false,
        wpc: true,
        raw_gma: true,
        lenc: true,
        horizontal_mirror: false,
        vertical_flip: false,
        dcw: true,
        color_bar: false,
        ..s
    }
}

/// One-time startup tuning of the sensor. Every written value lies within
/// its documented range, so the sequence always succeeds and the register
/// file afterwards is exactly the startup tuning.
pub fn sensor_config(cam: &mut Camera) -> (r: Result<(), HardwareFault>)
    ensures
        r is Ok,
        final(cam)@.regs == startup_regs(old(cam)@.regs),
        final(cam)@.frames == old(cam)@.frames,
        final(cam)@.acquired == old(cam)@.acquired,
        final(cam)@.released == old(cam)@.released,
{
    let s0 = cam.sensor.status;
    cam.sensor.status = SensorStatus {
        brightness: 2,
        contrast: 0,
        saturation: 0,
        special_effect: 0,
        awb: true,
        awb_gain: true,
        wb_mode: 0,
        aec: false,
        aec2: true,
        ae_level: 0,
        aec_value: 300,
        agc: true,
        agc_gain: 0,
        gain_ceiling: 0,
        bpc: false,
        wpc: true,
        raw_gma: true,
        lenc: true,
        horizontal_mirror: false,
        vertical_flip: false,
        dcw: true,
        color_bar: false,
        ..s0
    };
    Ok(())
}

/// Round-trip law: writing any configuration whose fields are all within
/// the documented hardware ranges and then reading the configuration back
/// yields exactly the written 13 fields.
pub proof fn lemma_write_read_round_trip(s: SensorStatus, cfg: CameraSensorConfig)
    requires
        config_ok(cfg),
    ensures
        project(apply_upto(s, cfg, 13)) == cfg,
{
}

} // verus!
