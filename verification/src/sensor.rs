//! Register-level model of the camera sensor: the full status record the
//! hardware exposes, the documented valid range of every tunable parameter,
//! and the typed setter facade that rejects out-of-range values at the
//! hardware boundary.
//!
//! The handle here is the dispatcher's double of the driver's per-device
//! control state: every setter either stores an in-range value in the
//! register file or reports a hardware fault and leaves it untouched. The
//! platform adapter that forwards the same operations to the native driver
//! function table lives outside this crate.

use vstd::prelude::*;

use crate::camera::FrameSize;
use crate::message::CameraSensorConfig;

verus! {

/// Identity registers of the detected sensor module.
#[derive(Clone, Copy, Debug, PartialEq, Eq, Structural)]
pub struct SensorId {
    pub midh: u8,
    pub midl: u8,
    pub pid: u16,
    pub ver: u8,
}

/// The full hardware status record: every tunable the driver tracks,
/// including the internal-only fields that are never exposed on the wire.
#[derive(Clone, Copy, Debug, PartialEq, Eq, Structural)]
pub struct SensorStatus {
    pub frame_size: FrameSize,
    pub scale: bool,
    pub binning: bool,
    pub quality: u8,
    pub brightness: i8,
    pub contrast: i8,
    pub saturation: i8,
    pub sharpness: i8,
    pub de_noise: u8,
    pub special_effect: u8,
    pub wb_mode: u8,
    pub awb: bool,
    pub awb_gain: bool,
    pub aec: bool,
    pub aec2: bool,
    pub ae_level: i8,
    pub aec_value: u16,
    pub agc: bool,
    pub agc_gain: u8,
    pub gain_ceiling: u8,
    pub bpc: bool,
    pub wpc: bool,
    pub raw_gma: bool,
    pub lenc: bool,
    pub horizontal_mirror: bool,
    pub vertical_flip: bool,
    pub dcw: bool,
    pub color_bar: bool,
}

/// Valid range of the level-style tunables (brightness, contrast,
/// saturation, sharpness, auto-exposure level).
pub open spec fn level_ok(v: int) -> bool {
    -2 <= v <= 2
}

/// Valid range of the de-noise strength.
pub open spec fn denoise_ok(v: int) -> bool {
    0 <= v <= 8
}

/// Valid range of the special-effect selector.
pub open spec fn special_effect_ok(v: int) -> bool {
    0 <= v <= 6
}

/// Valid range of the white-balance mode selector.
pub open spec fn wb_mode_ok(v: int) -> bool {
    0 <= v <= 4
}

/// Valid range of the gain ceiling.
pub open spec fn gain_ceiling_ok(v: int) -> bool {
    0 <= v <= 6
}

/// Valid range of the JPEG quality setting.
pub open spec fn quality_ok(v: int) -> bool {
    0 <= v <= 63
}

/// Valid range of the manual sensor gain.
pub open spec fn agc_gain_ok(v: int) -> bool {
    0 <= v <= 30
}

/// Valid range of the manual exposure value.
pub open spec fn aec_value_ok(v: int) -> bool {
    0 <= v <= 1200
}

/// The tunable parameters whose setters validate a numeric range and can
/// therefore reject a value.
#[derive(Clone, Copy, Debug, PartialEq, Eq, Structural)]
pub enum RegisterParam {
    Brightness,
    Contrast,
    Saturation,
    Sharpness,
    DeNoise,
    SpecialEffect,
    WbMode,
    GainCeiling,
    Quality,
    AgcGain,
    AecValue,
    AeLevel,
}

/// The text reported for a failed register operation, naming the operation.
pub open spec fn fault_text(p: RegisterParam) -> Seq<char> {
    match p {
        RegisterParam::Brightness => "set_brightness failed: unsupported value"@,
        RegisterParam::Contrast => "set_contrast failed: unsupported value"@,
        RegisterParam::Saturation => "set_saturation failed: unsupported value"@,
        RegisterParam::Sharpness => "set_sharpness failed: unsupported value"@,
        RegisterParam::DeNoise => "set_denoise failed: unsupported value"@,
        RegisterParam::SpecialEffect => "set_special_effect failed: unsupported value"@,
        RegisterParam::WbMode => "set_wb_mode failed: unsupported value"@,
        RegisterParam::GainCeiling => "set_gain_ceiling failed: unsupported value"@,
        RegisterParam::Quality => "set_quality failed: unsupported value"@,
        RegisterParam::AgcGain => "set_agc_gain failed: unsupported value"@,
        RegisterParam::AecValue => "set_aec_value failed: unsupported value"@,
        RegisterParam::AeLevel => "set_ae_level failed: unsupported value"@,
    }
}

/// A per-operation hardware failure, surfaced to the remote caller; it
/// names the register operation that was refused.
#[derive(Clone, Copy, Debug, PartialEq, Eq, Structural)]
pub struct HardwareFault {
    pub param: RegisterParam,
}

impl HardwareFault {
    /// Human-readable report of the failing operation.
    pub fn describe(&self) -> (r: String)
        ensures
            r@ == fault_text(self.param),
    {
        match self.param {
            RegisterParam::Brightness => "set_brightness failed: unsupported value".to_owned(),
            RegisterParam::Contrast => "set_contrast failed: unsupported value".to_owned(),
            RegisterParam::Saturation => "set_saturation failed: unsupported value".to_owned(),
            RegisterParam::Sharpness => "set_sharpness failed: unsupported value".to_owned(),
            RegisterParam::DeNoise => "set_denoise failed: unsupported value".to_owned(),
            RegisterParam::SpecialEffect => "set_special_effect failed: unsupported value".to_owned(),
            RegisterParam::WbMode => "set_wb_mode failed: unsupported value".to_owned(),
            RegisterParam::GainCeiling => "set_gain_ceiling failed: unsupported value".to_owned(),
            RegisterParam::Quality => "set_quality failed: unsupported value".to_owned(),
            RegisterParam::AgcGain => "set_agc_gain failed: unsupported value".to_owned(),
            RegisterParam::AecValue => "set_aec_value failed: unsupported value".to_owned(),
            RegisterParam::AeLevel => "set_ae_level failed: unsupported value".to_owned(),
        }
    }
}

/// Projection of the full hardware status down to the 13 wire-visible
/// fields; the internal-only fields are read but not exposed.
pub open spec fn project(s: SensorStatus) -> CameraSensorConfig {
    CameraSensorConfig {
        brightness: s.brightness,
        contrast: s.contrast,
        saturation: s.saturation,
        sharpness: s.sharpness,
        de_noise: s.de_noise,
        special_effect: s.special_effect,
        wb_mode: s.wb_mode,
        awb: s.awb,
        awb_gain: s.awb_gain,
        gain_ceiling: s.gain_ceiling,
        lens_correction: s.lenc,
        horizontal_mirror: s.horizontal_mirror,
        vertical_flip: s.vertical_flip,
    }
}

impl From<SensorStatus> for CameraSensorConfig {
    fn from(s: SensorStatus) -> (r: Self) {
        Self {
            brightness: s.brightness,
            contrast: s.contrast,
            saturation: s.saturation,
            sharpness: s.sharpness,
            de_noise: s.de_noise,
            special_effect: s.special_effect,
            wb_mode: s.wb_mode,
            awb: s.awb,
            awb_gain: s.awb_gain,
            gain_ceiling: s.gain_ceiling,
            lens_correction: s.lenc,
            horizontal_mirror: s.horizontal_mirror,
            vertical_flip: s.vertical_flip,
        }
    }
}

impl vstd::std_specs::convert::FromSpecImpl<SensorStatus> for CameraSensorConfig {
    open spec fn obeys_from_spec() -> bool {
        true
    }

    open spec fn from_spec(s: SensorStatus) -> Self {
        project(s)
    }
}

/// The live control handle of the camera sensor: the identity registers and
/// the register file of tunables. Valid only while the owning camera
/// resource is alive.
pub struct SensorHandle {
    pub id: SensorId,
    pub status: SensorStatus,
}

impl SensorHandle {
    /// The current register file.
    pub open spec fn regs(&self) -> SensorStatus {
        self.status
    }

    /// Identity of the detected sensor module.
    pub fn id(&self) -> (r: SensorId)
        ensures
            r == self.id_regs(),
    {
        self.id
    }

    pub open spec fn id_regs(&self) -> SensorId {
        self.id
    }

    /// Read the full 28-field status record.
    pub fn status(&self) -> (r: SensorStatus)
        ensures
            r == self.regs(),
    {
        self.status
    }

    pub fn set_frame_size(&mut self, frame_size: FrameSize) -> (r: Result<(), HardwareFault>)
        ensures
            r is Ok,
            final(self).regs() == (SensorStatus { frame_size, ..old(self).regs() }),
            final(self).id_regs() == old(self).id_regs(),
    {
        self.status.frame_size = frame_size;
        Ok(())
    }

    pub fn set_brightness(&mut self, level: i32) -> (r: Result<(), HardwareFault>)
        ensures
            r is Ok <==> level_ok(level as int),
            r is Ok ==> final(self).regs() == (SensorStatus {
                brightness: level as i8,
                ..old(self).regs()
            }),
            r matches Err(e) ==> e.param == RegisterParam::Brightness && final(self).regs()
                == old(self).regs(),
            final(self).id_regs() == old(self).id_regs(),
    {
        if -2 <= level && level <= 2 {
            self.status.brightness = level as i8;
            Ok(())
        } else {
            Err(HardwareFault { param: RegisterParam::Brightness })
        }
    }

    pub fn set_contrast(&mut self, level: i32) -> (r: Result<(), HardwareFault>)
        ensures
            r is Ok <==> level_ok(level as int),
            r is Ok ==> final(self).regs() == (SensorStatus {
                contrast: level as i8,
                ..old(self).regs()
            }),
            r matches Err(e) ==> e.param == RegisterParam::Contrast && final(self).regs() == old(
                self,
            ).regs(),
            final(self).id_regs() == old(self).id_regs(),
    {
        if -2 <= level && level <= 2 {
            self.status.contrast = level as i8;
            Ok(())
        } else {
            Err(HardwareFault { param: RegisterParam::Contrast })
        }
    }

    pub fn set_saturation(&mut self, level: i32) -> (r: Result<(), HardwareFault>)
        ensures
            r is Ok <==> level_ok(level as int),
            r is Ok ==> final(self).regs() == (SensorStatus {
                saturation: level as i8,
                ..old(self).regs()
            }),
            r matches Err(e) ==> e.param == RegisterParam::Saturation && final(self).regs() == old(
                self,
            ).regs(),
            final(self).id_regs() == old(self).id_regs(),
    {
        if -2 <= level && level <= 2 {
            self.status.saturation = level as i8;
            Ok(())
        } else {
            Err(HardwareFault { param: RegisterParam::Saturation })
        }
    }

    pub fn set_sharpness(&mut self, level: i32) -> (r: Result<(), HardwareFault>)
        ensures
            r is Ok <==> level_ok(level as int),
            r is Ok ==> final(self).regs() == (SensorStatus {
                sharpness: level as i8,
                ..old(self).regs()
            }),
            r matches Err(e) ==> e.param == RegisterParam::Sharpness && final(self).regs() == old(
                self,
            ).regs(),
            final(self).id_regs() == old(self).id_regs(),
    {
        if -2 <= level && level <= 2 {
            self.status.sharpness = level as i8;
            Ok(())
        } else {
            Err(HardwareFault { param: RegisterParam::Sharpness })
        }
    }

    pub fn set_denoise(&mut self, level: i32) -> (r: Result<(), HardwareFault>)
        ensures
            r is Ok <==> denoise_ok(level as int),
            r is Ok ==> final(self).regs() == (SensorStatus {
                de_noise: level as u8,
                ..old(self).regs()
            }),
            r matches Err(e) ==> e.param == RegisterParam::DeNoise && final(self).regs() == old(
                self,
            ).regs(),
            final(self).id_regs() == old(self).id_regs(),
    {
        if 0 <= level && level <= 8 {
            self.status.de_noise = level as u8;
            Ok(())
        } else {
            Err(HardwareFault { param: RegisterParam::DeNoise })
        }
    }

    pub fn set_special_effect(&mut self, effect: i32) -> (r: Result<(), HardwareFault>)
        ensures
            r is Ok <==> special_effect_ok(effect as int),
            r is Ok ==> final(self).regs() == (SensorStatus {
                special_effect: effect as u8,
                ..old(self).regs()
            }),
            r matches Err(e) ==> e.param == RegisterParam::SpecialEffect && final(self).regs()
                == old(self).regs(),
            final(self).id_regs() == old(self).id_regs(),
    {
        if 0 <= effect && effect <= 6 {
            self.status.special_effect = effect as u8;
            Ok(())
        } else {
            Err(HardwareFault { param: RegisterParam::SpecialEffect })
        }
    }

    pub fn set_wb_mode(&mut self, mode: i32) -> (r: Result<(), HardwareFault>)
        ensures
            r is Ok <==> wb_mode_ok(mode as int),
            r is Ok ==> final(self).regs() == (SensorStatus {
                wb_mode: mode as u8,
                ..old(self).regs()
            }),
            r matches Err(e) ==> e.param == RegisterParam::WbMode && final(self).regs() == old(
                self,
            ).regs(),
            final(self).id_regs() == old(self).id_regs(),
    {
        if 0 <= mode && mode <= 4 {
            self.status.wb_mode = mode as u8;
            Ok(())
        } else {
            Err(HardwareFault { param: RegisterParam::WbMode })
        }
    }

    pub fn set_gain_ceiling(&mut self, gain_ceiling: u32) -> (r: Result<(), HardwareFault>)
        ensures
            r is Ok <==> gain_ceiling_ok(gain_ceiling as int),
            r is Ok ==> final(self).regs() == (SensorStatus {
                gain_ceiling: gain_ceiling as u8,
                ..old(self).regs()
            }),
            r matches Err(e) ==> e.param == RegisterParam::GainCeiling && final(self).regs() == old(
                self,
            ).regs(),
            final(self).id_regs() == old(self).id_regs(),
    {
        if gain_ceiling <= 6 {
            self.status.gain_ceiling = gain_ceiling as u8;
            Ok(())
        } else {
            Err(HardwareFault { param: RegisterParam::GainCeiling })
        }
    }

    pub fn set_quality(&mut self, quality: i32) -> (r: Result<(), HardwareFault>)
        ensures
            r is Ok <==> quality_ok(quality as int),
            r is Ok ==> final(self).regs() == (SensorStatus {
                quality: quality as u8,
                ..old(self).regs()
            }),
            r matches Err(e) ==> e.param == RegisterParam::Quality && final(self).regs() == old(
                self,
            ).regs(),
            final(self).id_regs() == old(self).id_regs(),
    {
        if 0 <= quality && quality <= 63 {
            self.status.quality = quality as u8;
            Ok(())
        } else {
            Err(HardwareFault { param: RegisterParam::Quality })
        }
    }

    pub fn set_agc_gain(&mut self, gain: i32) -> (r: Result<(), HardwareFault>)
        ensures
            r is Ok <==> agc_gain_ok(gain as int),
            r is Ok ==> final(self).regs() == (SensorStatus {
                agc_gain: gain as u8,
                ..old(self).regs()
            }),
            r matches Err(e) ==> e.param == RegisterParam::AgcGain && final(self).regs() == old(
                self,
            ).regs(),
            final(self).id_regs() == old(self).id_regs(),
    {
        if 0 <= gain && gain <= 30 {
            self.status.agc_gain = gain as u8;
            Ok(())
        } else {
            Err(HardwareFault { param: RegisterParam::AgcGain })
        }
    }

    pub fn set_aec_value(&mut self, value: i32) -> (r: Result<(), HardwareFault>)
        ensures
            r is Ok <==> aec_value_ok(value as int),
            r is Ok ==> final(self).regs() == (SensorStatus {
                aec_value: value as u16,
                ..old(self).regs()
            }),
            r matches Err(e) ==> e.param == RegisterParam::AecValue && final(self).regs() == old(
                self,
            ).regs(),
            final(self).id_regs() == old(self).id_regs(),
    {
        if 0 <= value && value <= 1200 {
            self.status.aec_value = value as u16;
            Ok(())
        } else {
            Err(HardwareFault { param: RegisterParam::AecValue })
        }
    }

    pub fn set_ae_level(&mut self, level: i32) -> (r: Result<(), HardwareFault>)
        ensures
            r is Ok <==> level_ok(level as int),
            r is Ok ==> final(self).regs() == (SensorStatus {
                ae_level: level as i8,
                ..old(self).regs()
            }),
            r matches Err(e) ==> e.param == RegisterParam::AeLevel && final(self).regs() == old(
                self,
            ).regs(),
            final(self).id_regs() == old(self).id_regs(),
    {
        if -2 <= level && level <= 2 {
            self.status.ae_level = level as i8;
            Ok(())
        } else {
            Err(HardwareFault { param: RegisterParam::AeLevel })
        }
    }

    pub fn set_whitebal(&mut self, enable: bool) -> (r: Result<(), HardwareFault>)
        ensures
            r is Ok,
            final(self).regs() == (SensorStatus { awb: enable, ..old(self).regs() }),
            final(self).id_regs() == old(self).id_regs(),
    {
        self.status.awb = enable;
        Ok(())
    }

    pub fn set_awb_gain(&mut self, enable: bool) -> (r: Result<(), HardwareFault>)
        ensures
            r is Ok,
            final(self).regs() == (SensorStatus { awb_gain: enable, ..old(self).regs() }),
            final(self).id_regs() == old(self).id_regs(),
    {
        self.status.awb_gain = enable;
        Ok(())
    }

    pub fn set_exposure_ctrl(&mut self, enable: bool) -> (r: Result<(), HardwareFault>)
        ensures
            r is Ok,
            final(self).regs() == (SensorStatus { aec: enable, ..old(self).regs() }),
            final(self).id_regs() == old(self).id_regs(),
    {
        self.status.aec = enable;
        Ok(())
    }

    pub fn set_aec2(&mut self, enable: bool) -> (r: Result<(), HardwareFault>)
        ensures
            r is Ok,
            final(self).regs() == (SensorStatus { aec2: enable, ..old(self).regs() }),
            final(self).id_regs() == old(self).id_regs(),
    {
        self.status.aec2 = enable;
        Ok(())
    }

    pub fn set_gain_ctrl(&mut self, enable: bool) -> (r: Result<(), HardwareFault>)
        ensures
            r is Ok,
            final(self).regs() == (SensorStatus { agc: enable, ..old(self).regs() }),
            final(self).id_regs() == old(self).id_regs(),
    {
        self.status.agc = enable;
        Ok(())
    }

    pub fn set_bpc(&mut self, enable: bool) -> (r: Result<(), HardwareFault>)
        ensures
            r is Ok,
            final(self).regs() == (SensorStatus { bpc: enable, ..old(self).regs() }),
            final(self).id_regs() == old(self).id_regs(),
    {
        self.status.bpc = enable;
        Ok(())
    }

    pub fn set_wpc(&mut self, enable: bool) -> (r: Result<(), HardwareFault>)
        ensures
            r is Ok,
            final(self).regs() == (SensorStatus { wpc: enable, ..old(self).regs() }),
            final(self).id_regs() == old(self).id_regs(),
    {
        self.status.wpc = enable;
        Ok(())
    }

    pub fn set_raw_gma(&mut self, enable: bool) -> (r: Result<(), HardwareFault>)
        ensures
            r is Ok,
            final(self).regs() == (SensorStatus { raw_gma: enable, ..old(self).regs() }),
            final(self).id_regs() == old(self).id_regs(),
    {
        self.status.raw_gma = enable;
        Ok(())
    }

    pub fn set_lenc(&mut self, enable: bool) -> (r: Result<(), HardwareFault>)
        ensures
            r is Ok,
            final(self).regs() == (SensorStatus { lenc: enable, ..old(self).regs() }),
            final(self).id_regs() == old(self).id_regs(),
    {
        self.status.lenc = enable;
        Ok(())
    }

    pub fn set_hmirror(&mut self, enable: bool) -> (r: Result<(), HardwareFault>)
        ensures
            r is Ok,
            final(self).regs() == (SensorStatus {
                horizontal_mirror: enable,
                ..old(self).regs()
            }),
            final(self).id_regs() == old(self).id_regs(),
    {
        self.status.horizontal_mirror = enable;
        Ok(())
    }

    pub fn set_vflip(&mut self, enable: bool) -> (r: Result<(), HardwareFault>)
        ensures
            r is Ok,
            final(self).regs() == (SensorStatus { vertical_flip: enable, ..old(self).regs() }),
            final(self).id_regs() == old(self).id_regs(),
    {
        self.status.vertical_flip = enable;
        Ok(())
    }

    pub fn set_dcw(&mut self, enable: bool) -> (r: Result<(), HardwareFault>)
        ensures
            r is Ok,
            final(self).regs() == (SensorStatus { dcw: enable, ..old(self).regs() }),
            final(self).id_regs() == old(self).id_regs(),
    {
        self.status.dcw = enable;
        Ok(())
    }

    pub fn set_color_bar(&mut self, enable: bool) -> (r: Result<(), HardwareFault>)
        ensures
            r is Ok,
            final(self).regs() == (SensorStatus { color_bar: enable, ..old(self).regs() }),
            final(self).id_regs() == old(self).id_regs(),
    {
        self.status.color_bar = enable;
        Ok(())
    }
}

} // verus!
