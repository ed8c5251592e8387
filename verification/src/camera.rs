//! The camera resource: the owned driver session, its fixed initialization
//! record, and the borrowed-frame abstraction.
//!
//! The resource here is the hardware double the dispatcher is verified
//! against: it owns one sensor handle, a queue of frames the driver has
//! ready, and the acquire/release accounting of frame-buffer borrows. A
//! captured frame is handed out as a checked guard that must be returned to
//! the driver exactly once; the accounting invariant says the two counters
//! never drift more than one apart.

use vstd::prelude::*;

use crate::sensor::{SensorHandle, SensorId, SensorStatus};

verus! {

/// Pixel format of captured frames.
#[derive(Clone, Copy, Debug, PartialEq, Eq, Structural)]
pub enum PixelFormat {
    RGB565,
    YUV422,
    YUV420,
    GRAYSCALE,
    JPEG,
    RGB888,
    RAW,
    RGB444,
    RGB555,
}

/// Output geometry of the sensor.
#[derive(Clone, Copy, Debug, PartialEq, Eq, Structural)]
pub enum FrameSize {
    FrameSize96X96,
    FrameSizeQQVGA,
    FrameSizeQCIF,
    FrameSizeHQVGA,
    FrameSize240X240,
    FrameSizeQVGA,
    FrameSizeCIF,
    FrameSizeHVGA,
    FrameSizeVGA,
    FrameSizeSVGA,
    FrameSizeXGA,
    FrameSizeHD,
    FrameSizeSXGA,
    FrameSizeUXGA,
    FrameSizeFHD,
    FrameSizePHD,
    FrameSizeP3MP,
    FrameSizeQXGA,
    FrameSizeQHD,
    FrameSizeWQXGA,
    FrameSizePFHD,
    FrameSizeQSXGA,
    FrameSizeINVALID,
}

/// Memory bank the driver allocates frame buffers in.
#[derive(Clone, Copy, Debug, PartialEq, Eq, Structural)]
pub enum CameraFbLocation {
    PSRAM,
    DRAM,
}

/// The driver's buffer-grab policy.
#[derive(Clone, Copy, Debug, PartialEq, Eq, Structural)]
pub enum CameraGrabMode {
    WhenEmpty,
    Latest,
}

/// The fixed one-time driver setup record: pin assignments, clocking, and
/// the capture pipeline configuration.
#[derive(Clone, Copy, Debug, PartialEq, Eq, Structural)]
pub struct CameraConfig {
    pub pin_pwdn: i32,
    pub pin_reset: i32,
    pub pin_xclk: i32,
    pub pin_sda: i32,
    pub pin_scl: i32,
    pub pin_d7: i32,
    pub pin_d6: i32,
    pub pin_d5: i32,
    pub pin_d4: i32,
    pub pin_d3: i32,
    pub pin_d2: i32,
    pub pin_d1: i32,
    pub pin_d0: i32,
    pub pin_vsync: i32,
    pub pin_href: i32,
    pub pin_pclk: i32,
    pub xclk_freq_hz: i32,
    pub ledc_timer: u32,
    pub ledc_channel: u32,
    pub pixel_format: PixelFormat,
    pub frame_size: FrameSize,
    pub jpeg_quality: i32,
    pub fb_count: usize,
    pub fb_location: CameraFbLocation,
    pub grab_mode: CameraGrabMode,
}

/// The board's stock wiring and capture settings.
pub open spec fn default_camera_config() -> CameraConfig {
    CameraConfig {
        pin_pwdn: 32,
        pin_reset: -1i32,
        pin_xclk: 0,
        pin_sda: 26,
        pin_scl: 27,
        pin_d7: 35,
        pin_d6: 34,
        pin_d5: 39,
        pin_d4: 36,
        pin_d3: 21,
        pin_d2: 19,
        pin_d1: 18,
        pin_d0: 5,
        pin_vsync: 25,
        pin_href: 23,
        pin_pclk: 22,
        xclk_freq_hz: 20000000,
        ledc_timer: 0,
        ledc_channel: 0,
        pixel_format: PixelFormat::RGB565,
        frame_size: FrameSize::FrameSizeQVGA,
        jpeg_quality: 12,
        fb_count: 1,
        fb_location: CameraFbLocation::PSRAM,
        grab_mode: CameraGrabMode::WhenEmpty,
    }
}

impl Default for CameraConfig {
    fn default() -> (r: Self)
        ensures
            r == default_camera_config(),
    {
        Self {
            pin_pwdn: 32,
            pin_reset: -1,
            pin_xclk: 0,
            pin_sda: 26,
            pin_scl: 27,
            pin_d7: 35,
            pin_d6: 34,
            pin_d5: 39,
            pin_d4: 36,
            pin_d3: 21,
            pin_d2: 19,
            pin_d1: 18,
            pin_d0: 5,
            pin_vsync: 25,
            pin_href: 23,
            pin_pclk: 22,
            xclk_freq_hz: 20000000,
            ledc_timer: 0,
            ledc_channel: 0,
            pixel_format: PixelFormat::RGB565,
            frame_size: FrameSize::FrameSizeQVGA,
            jpeg_quality: 12,
            fb_count: 1,
            fb_location: CameraFbLocation::PSRAM,
            grab_mode: CameraGrabMode::WhenEmpty,
        }
    }
}

/// Register file of a sensor that has just come out of reset under the
/// given setup record: geometry from the record, quality from the record
/// where it is representable (the stock value otherwise), every tunable at
/// its neutral value.
pub open spec fn power_on_status(config: CameraConfig) -> SensorStatus {
    SensorStatus {
        frame_size: config.frame_size,
        scale: false,
        binning: false,
        quality: if crate::sensor::quality_ok(config.jpeg_quality as int) {
            config.jpeg_quality as u8
        } else {
            12
        },
        brightness: 0,
        contrast: 0,
        saturation: 0,
        sharpness: 0,
        de_noise: 0,
        special_effect: 0,
        wb_mode: 0,
        awb: false,
        awb_gain: false,
        aec: false,
        aec2: false,
        ae_level: 0,
        aec_value: 0,
        agc: false,
        agc_gain: 0,
        gain_ceiling: 0,
        bpc: false,
        wpc: false,
        raw_gma: false,
        lenc: false,
        horizontal_mirror: false,
        vertical_flip: false,
        dcw: false,
        color_bar: false,
    }
}

/// Ghost abstraction of the camera resource: the sensor register file, the
/// frames the driver has ready (oldest first), and the borrow accounting.
#[verifier::ext_equal]
pub struct CameraView {
    pub regs: SensorStatus,
    pub frames: Seq<Seq<u8>>,
    pub acquired: nat,
    pub released: nat,
}

/// A bounded borrow of one captured frame: the frame's bytes and the serial
/// number of the capture that produced it. The guard must be handed back to
/// the camera exactly once; it cannot be duplicated.
pub struct FrameBuffer {
    bytes: Vec<u8>,
    serial: u64,
}

impl View for FrameBuffer {
    type V = Seq<u8>;

    closed spec fn view(&self) -> Seq<u8> {
        self.bytes@
    }
}

impl FrameBuffer {
    /// Which capture produced this guard.
    pub closed spec fn serial(&self) -> u64 {
        self.serial
    }

    /// The frame's encoded bytes.
    pub fn data(&self) -> (r: &[u8])
        ensures
            r@ == self@,
    {
        self.bytes.as_slice()
    }

    /// Driver-reported length of the frame.
    pub fn len(&self) -> (r: usize)
        ensures
            r == self@.len(),
    {
        self.bytes.len()
    }
}

/// The owned camera resource: one driver session, its sensor handle, the
/// frames the driver has ready, and the frame-borrow accounting.
pub struct Camera {
    pub sensor: SensorHandle,
    pub frames: Vec<Vec<u8>>,
    pub acquired: u64,
    pub released: u64,
}

impl View for Camera {
    type V = CameraView;

    open spec fn view(&self) -> CameraView {
        CameraView {
            regs: self.sensor.regs(),
            frames: self.frames.deep_view(),
            acquired: self.acquired as nat,
            released: self.released as nat,
        }
    }
}

impl Camera {
    /// Borrow accounting invariant: captures and releases never drift more
    /// than one apart, so at most one frame guard is outstanding.
    pub open spec fn inv(&self) -> bool {
        self@.released <= self@.acquired <= self@.released + 1
    }

    /// No frame guard is outstanding.
    pub open spec fn idle(&self) -> bool {
        self@.acquired == self@.released
    }

    /// One-time driver setup from the fixed configuration record. The
    /// double always detects its sensor; it comes up with the power-on
    /// register file, no frame ready, and no borrow outstanding.
    pub fn init(config: CameraConfig) -> (r: Camera)
        ensures
            r@.regs == power_on_status(config),
            r@.frames =~= Seq::<Seq<u8>>::empty(),
            r@.acquired == 0,
            r@.released == 0,
            r.inv(),
            r.idle(),
    {
        let cam = Camera {
            sensor: SensorHandle {
                id: SensorId { midh: 0, midl: 0, pid: 0, ver: 0 },
                status: SensorStatus {
                    frame_size: config.frame_size,
                    scale: false,
                    binning: false,
                    quality: if 0 <= config.jpeg_quality && config.jpeg_quality <= 63 {
                        config.jpeg_quality as u8
                    } else {
                        12
                    },
                    brightness: 0,
                    contrast: 0,
                    saturation: 0,
                    sharpness: 0,
                    de_noise: 0,
                    special_effect: 0,
                    wb_mode: 0,
                    awb: false,
                    awb_gain: false,
                    aec: false,
                    aec2: false,
                    ae_level: 0,
                    aec_value: 0,
                    agc: false,
                    agc_gain: 0,
                    gain_ceiling: 0,
                    bpc: false,
                    wpc: false,
                    raw_gma: false,
                    lenc: false,
                    horizontal_mirror: false,
                    vertical_flip: false,
                    dcw: false,
                    color_bar: false,
                },
            },
            frames: Vec::new(),
            acquired: 0,
            released: 0,
        };
        cam
    }

    /// Make one captured frame available, as the driver's capture pipeline
    /// would after a DMA transfer completes; frames queue oldest first.
    pub fn stage_frame(&mut self, bytes: Vec<u8>)
        ensures
            final(self)@.frames =~= old(self)@.frames.push(bytes@),
            final(self)@.regs == old(self)@.regs,
            final(self)@.acquired == old(self)@.acquired,
            final(self)@.released == old(self)@.released,
    {
        let ghost staged: Seq<u8> = bytes@;
        proof {
            assert(bytes.deep_view() =~= staged);
        }
        self.frames.push(bytes);
        assert(self@.frames =~= old(self)@.frames.push(staged));
    }

    /// Request one frame. Returns a guard over the oldest ready frame, or
    /// nothing when no frame is ready or a borrow is still outstanding; it
    /// never blocks.
    pub fn fb_get(&mut self) -> (r: Option<FrameBuffer>)
        requires
            old(self).inv(),
            old(self)@.acquired < u64::MAX,
        ensures
            final(self).inv(),
            final(self)@.regs == old(self)@.regs,
            (r is Some <==> (old(self).idle() && old(self)@.frames.len() > 0)),
            r matches Some(fb) ==> {
                &&& fb@ == old(self)@.frames[0]
                &&& fb.serial() as nat == old(self)@.acquired + 1
                &&& final(self)@.frames =~= old(self)@.frames.drop_first()
                &&& final(self)@.acquired == old(self)@.acquired + 1
                &&& final(self)@.released == old(self)@.released
            },
            r is None ==> final(self)@ =~= old(self)@,
    {
        if self.acquired > self.released {
            return None;
        }
        if self.frames.len() == 0 {
            return None;
        }
        let bytes = self.frames.remove(0);
        proof {
            assert(bytes.deep_view() =~= bytes@);
            assert(bytes.deep_view() == old(self)@.frames[0]);
        }
        self.acquired = self.acquired + 1;
        let fb = FrameBuffer { bytes, serial: self.acquired };
        assert(self@.frames =~= old(self)@.frames.drop_first());
        Some(fb)
    }

    /// Hand a frame guard back so the driver may reuse the buffer. The
    /// guard is consumed; only the guard of the live capture is accepted.
    pub fn fb_return(&mut self, fb: FrameBuffer)
        requires
            old(self).inv(),
            old(self)@.acquired == old(self)@.released + 1,
            fb.serial() as nat == old(self)@.acquired,
        ensures
            final(self).inv(),
            final(self).idle(),
            final(self)@.regs == old(self)@.regs,
            final(self)@.frames =~= old(self)@.frames,
            final(self)@.acquired == old(self)@.acquired,
            final(self)@.released == old(self)@.released + 1,
    {
        self.released = self.released + 1;
    }

    /// Read access to the sensor handle; valid while the camera is alive.
    pub fn sensor(&self) -> (r: &SensorHandle)
        ensures
            r.regs() == self@.regs,
    {
        &self.sensor
    }

    /// How many captures the driver has handed out; instrumentation for the
    /// borrow-accounting invariant.
    pub fn acquired_count(&self) -> (r: u64)
        ensures
            r as nat == self@.acquired,
    {
        self.acquired
    }

    /// How many frame buffers have been handed back; instrumentation for
    /// the borrow-accounting invariant.
    pub fn released_count(&self) -> (r: u64)
        ensures
            r as nat == self@.released,
    {
        self.released
    }

    /// How many frames the driver has ready.
    pub fn frames_ready(&self) -> (r: usize)
        ensures
            r == self@.frames.len(),
    {
        self.frames.len()
    }
}

/// At most one frame buffer guard is alive at any instant: under the borrow
/// accounting invariant the capture count exceeds the release count by
/// exactly zero (no guard outstanding) or one (the live guard).
pub proof fn lemma_at_most_one_guard(cam: Camera)
    requires
        cam.inv(),
    ensures
        cam@.acquired - cam@.released == 0 || cam@.acquired - cam@.released == 1,
{
}

} // verus!
