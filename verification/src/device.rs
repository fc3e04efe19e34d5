//! The camera resource manager: it owns the lifetime of the single camera
//! device, produces borrowed frame handles with enforced release
//! semantics, and mediates access to the sensor control surface.
//!
//! The driver's buffer pool is modeled explicitly: the device has
//! `FB_COUNT` buffers; a capture lends one out as a [`FrameBuffer`] and a
//! return gives it back. A [`FrameBuffer`] is a move-only value whose only
//! consumer is [`Camera::return_framebuffer`], so a handle cannot be
//! released twice; and [`Camera::teardown`] consumes the device by value
//! and demands that no handle is outstanding, so teardown while a frame is
//! alive is ruled out for every verified caller.

use vstd::prelude::*;

use crate::error::CamError;
use crate::sensor::{framesize_ok, CameraSensor, PixFormat, SensorStatus};

verus! {

/// Depth of the driver's frame-buffer pool.
pub const FB_COUNT: usize = 2;

/// JPEG quality the device is initialized with.
pub const INIT_JPEG_QUALITY: u8 = 12;

/// External clock frequency the device is initialized with, in hertz.
pub const XCLK_FREQ_HZ: u32 = 20000000;

/// Largest GPIO number of the modeled target.
pub const MAX_GPIO: i32 = 48;

/// Where the driver places its frame buffers.
#[derive(Clone, Copy, Debug, PartialEq, Eq, Structural)]
pub enum FbLocation {
    Psram,
    Dram,
}

/// When the driver fills a buffer with a new frame.
#[derive(Clone, Copy, Debug, PartialEq, Eq, Structural)]
pub enum GrabMode {
    WhenEmpty,
    Latest,
}

/// The pin assignment handed to initialization: the data bus, the sync
/// and clock lines, and the control bus, each a GPIO number of the
/// target; the power-down line is optional.
#[derive(Clone, Copy, Debug, PartialEq, Eq, Structural)]
pub struct PinAssignment {
    pub pin_pwdn: Option<i32>,
    pub pin_xclk: i32,
    pub pin_d0: i32,
    pub pin_d1: i32,
    pub pin_d2: i32,
    pub pin_d3: i32,
    pub pin_d4: i32,
    pub pin_d5: i32,
    pub pin_d6: i32,
    pub pin_d7: i32,
    pub pin_vsync: i32,
    pub pin_href: i32,
    pub pin_pclk: i32,
    pub pin_sda: i32,
    pub pin_scl: i32,
}

impl PinAssignment {
    /// The assigned pins in a fixed order, the power-down pin first when
    /// it is assigned.
    pub open spec fn pin_seq(&self) -> Seq<i32> {
        let base = seq![
            self.pin_xclk,
            self.pin_d0,
            self.pin_d1,
            self.pin_d2,
            self.pin_d3,
            self.pin_d4,
            self.pin_d5,
            self.pin_d6,
            self.pin_d7,
            self.pin_vsync,
            self.pin_href,
            self.pin_pclk,
            self.pin_sda,
            self.pin_scl,
        ];
        match self.pin_pwdn {
            Some(p) => seq![p] + base,
            None => base,
        }
    }

    /// A pin assignment the peripheral accepts: every line on a real GPIO
    /// of the target, and no two lines on the same GPIO.
    pub open spec fn valid(&self) -> bool {
        &&& forall|i: int|
            0 <= i < self.pin_seq().len() ==> 0 <= #[trigger] self.pin_seq()[i] <= MAX_GPIO
        &&& forall|i: int, j: int|
            0 <= i < j < self.pin_seq().len() ==> #[trigger] self.pin_seq()[i]
                != #[trigger] self.pin_seq()[j]
    }

    /// Collects the assigned pins, in the order of `pin_seq`.
    pub fn collect_pins(&self) -> (r: Vec<i32>)
        ensures
            r@ == self.pin_seq(),
    {
        let mut r: Vec<i32> = Vec::new();
        match self.pin_pwdn {
            Some(p) => r.push(p),
            None => (),
        }
        r.push(self.pin_xclk);
        r.push(self.pin_d0);
        r.push(self.pin_d1);
        r.push(self.pin_d2);
        r.push(self.pin_d3);
        r.push(self.pin_d4);
        r.push(self.pin_d5);
        r.push(self.pin_d6);
        r.push(self.pin_d7);
        r.push(self.pin_vsync);
        r.push(self.pin_href);
        r.push(self.pin_pclk);
        r.push(self.pin_sda);
        r.push(self.pin_scl);
        proof {
            assert(r@ =~= self.pin_seq());
        }
        r
    }

    /// Decides whether the peripheral accepts this pin assignment.
    pub fn check_valid(&self) -> (r: bool)
        ensures
            r == self.valid(),
    {
        let pins = self.collect_pins();
        let n = pins.len();
        let mut i: usize = 0;
        while i < n
            invariant
                i <= n,
                n == self.pin_seq().len(),
                pins@ == self.pin_seq(),
                forall|k: int| 0 <= k < i ==> 0 <= #[trigger] self.pin_seq()[k] <= MAX_GPIO,
                forall|k: int, l: int|
                    0 <= k < l < self.pin_seq().len() && l < i ==> #[trigger] self.pin_seq()[k]
                        != #[trigger] self.pin_seq()[l],
            decreases n - i,
        {
            let p = pins[i];
            if p < 0 || p > MAX_GPIO {
                return false;
            }
            let mut j: usize = 0;
            while j < i
                invariant
                    j <= i < n,
                    n == self.pin_seq().len(),
                    pins@ == self.pin_seq(),
                    p == self.pin_seq()[i as int],
                    forall|k: int|
                        0 <= k < j ==> #[trigger] self.pin_seq()[k] != self.pin_seq()[i as int],
                decreases i - j,
            {
                if pins[j] == p {
                    return false;
                }
                j += 1;
            }
            i += 1;
        }
        true
    }
}

/// The full configuration record the driver is initialized with.
#[derive(Clone, Copy, Debug, PartialEq, Eq, Structural)]
pub struct CameraConfig {
    pub pin_pwdn: i32,
    pub pin_reset: i32,
    pub pin_xclk: i32,
    pub pin_d0: i32,
    pub pin_d1: i32,
    pub pin_d2: i32,
    pub pin_d3: i32,
    pub pin_d4: i32,
    pub pin_d5: i32,
    pub pin_d6: i32,
    pub pin_d7: i32,
    pub pin_vsync: i32,
    pub pin_href: i32,
    pub pin_pclk: i32,
    pub pin_sccb_sda: i32,
    pub pin_sccb_scl: i32,
    pub xclk_freq_hz: u32,
    pub ledc_channel: u8,
    pub ledc_timer: u8,
    pub pixel_format: PixFormat,
    pub frame_size: u32,
    pub jpeg_quality: u8,
    pub fb_count: u8,
    pub grab_mode: GrabMode,
    pub fb_location: FbLocation,
}

/// The configuration record built from a pin assignment: no reset line,
/// a 20 MHz external clock, JPEG quality 12, a pool of two frame buffers
/// placed in external RAM, and a grab on empty buffers.
pub open spec fn config_spec(
    pins: PinAssignment,
    ledc_channel: u8,
    ledc_timer: u8,
    pixel_format: PixFormat,
    frame_size: u32,
) -> CameraConfig {
    CameraConfig {
        pin_pwdn: match pins.pin_pwdn {
            Some(p) => p,
            None => -1i32,
        },
        pin_reset: -1i32,
        pin_xclk: pins.pin_xclk,
        pin_d0: pins.pin_d0,
        pin_d1: pins.pin_d1,
        pin_d2: pins.pin_d2,
        pin_d3: pins.pin_d3,
        pin_d4: pins.pin_d4,
        pin_d5: pins.pin_d5,
        pin_d6: pins.pin_d6,
        pin_d7: pins.pin_d7,
        pin_vsync: pins.pin_vsync,
        pin_href: pins.pin_href,
        pin_pclk: pins.pin_pclk,
        pin_sccb_sda: pins.pin_sda,
        pin_sccb_scl: pins.pin_scl,
        xclk_freq_hz: XCLK_FREQ_HZ,
        ledc_channel,
        ledc_timer,
        pixel_format,
        frame_size,
        jpeg_quality: INIT_JPEG_QUALITY,
        fb_count: FB_COUNT as u8,
        grab_mode: GrabMode::WhenEmpty,
        fb_location: FbLocation::Psram,
    }
}

/// Builds the driver configuration record from the pin assignment.
pub fn build_config(
    pins: &PinAssignment,
    ledc_channel: u8,
    ledc_timer: u8,
    pixel_format: PixFormat,
    frame_size: u32,
) -> (r: CameraConfig)
    ensures
        r == config_spec(*pins, ledc_channel, ledc_timer, pixel_format, frame_size),
{
    CameraConfig {
        pin_pwdn: match pins.pin_pwdn {
            Some(p) => p,
            None => -1,
        },
        pin_reset: -1,
        pin_xclk: pins.pin_xclk,
        pin_d0: pins.pin_d0,
        pin_d1: pins.pin_d1,
        pin_d2: pins.pin_d2,
        pin_d3: pins.pin_d3,
        pin_d4: pins.pin_d4,
        pin_d5: pins.pin_d5,
        pin_d6: pins.pin_d6,
        pin_d7: pins.pin_d7,
        pin_vsync: pins.pin_vsync,
        pin_href: pins.pin_href,
        pin_pclk: pins.pin_pclk,
        pin_sccb_sda: pins.pin_sda,
        pin_sccb_scl: pins.pin_scl,
        xclk_freq_hz: XCLK_FREQ_HZ,
        ledc_channel,
        ledc_timer,
        pixel_format,
        frame_size,
        jpeg_quality: INIT_JPEG_QUALITY,
        fb_count: FB_COUNT as u8,
        grab_mode: GrabMode::WhenEmpty,
        fb_location: FbLocation::Psram,
    }
}

/// A capture timestamp, in seconds and microseconds.
#[derive(Clone, Copy, Debug, PartialEq, Eq, Structural)]
pub struct Timeval {
    pub sec: i64,
    pub usec: i64,
}

/// One frame as the hardware produced it: the encoded payload and its
/// dimensions, format and capture time.
#[derive(Debug)]
pub struct FrameData {
    pub payload: Vec<u8>,
    pub width: usize,
    pub height: usize,
    pub format: PixFormat,
    pub timestamp: Timeval,
}

/// A borrowed view over one frame buffer owned by the driver's pool. It
/// is move-only: the single way to consume it is
/// [`Camera::return_framebuffer`], so a second release cannot be written.
#[derive(Debug)]
pub struct FrameBuffer {
    pub frame: FrameData,
}

impl FrameBuffer {
    /// The frame's byte payload.
    pub fn data(&self) -> (r: &Vec<u8>)
        ensures
            r == self.frame.payload,
    {
        &self.frame.payload
    }

    /// The frame's width in pixels.
    pub fn width(&self) -> (r: usize)
        ensures
            r == self.frame.width,
    {
        self.frame.width
    }

    /// The frame's height in pixels.
    pub fn height(&self) -> (r: usize)
        ensures
            r == self.frame.height,
    {
        self.frame.height
    }

    /// The frame's pixel format.
    pub fn format(&self) -> (r: PixFormat)
        ensures
            r == self.frame.format,
    {
        self.frame.format
    }

    /// The frame's capture timestamp.
    pub fn timestamp(&self) -> (r: Timeval)
        ensures
            r == self.frame.timestamp,
    {
        self.frame.timestamp
    }
}

/// The unclaimed physical camera peripheral: the move-only token that
/// initialization consumes and teardown gives back. Inside this library
/// nothing creates one except [`Camera::teardown`] and the one-time board
/// hand-off below, so a verified caller holding one token can hold at
/// most one live [`Camera`] at a time: a second initialization needs the
/// token back, and the token comes back only when the first device is
/// torn down.
#[derive(Debug)]
pub struct CameraPeripheral {
    _claim: (),
}

impl CameraPeripheral {
    /// The board hand-off: the platform gives this process its one
    /// camera peripheral, exactly once, at bring-up. The platform is
    /// what makes the peripheral unique; everything after this call is
    /// governed by the token's ownership: while a device handle is
    /// live, the token is inside it, and no second device can be made.
    pub fn take() -> CameraPeripheral {
        CameraPeripheral { _claim: () }
    }
}

/// The initialized camera peripheral. Creating it consumes the one
/// [`CameraPeripheral`] token and tearing it down returns the token, and
/// the handle is never cloned, so a second live instance cannot be
/// produced from the same peripheral.
pub struct Camera {
    pub config: CameraConfig,
    pub sensor: CameraSensor,
    /// Frames the hardware has exposed and the driver has not yet handed
    /// out.
    pub pending: Vec<FrameData>,
    /// Pool buffers not currently lent out.
    pub free_buffers: usize,
    /// Frame handles produced and not yet returned.
    pub outstanding: usize,
}

impl Camera {
    /// Well-formedness: the sensor model is intact and every pool buffer
    /// is either free or lent out.
    pub open spec fn wf(&self) -> bool {
        &&& self.sensor.wf()
        &&& self.free_buffers + self.outstanding == FB_COUNT
    }

    /// A frame is ready for capture: the hardware has exposed one and a
    /// pool buffer is free to carry it.
    pub open spec fn frame_ready(&self) -> bool {
        self.pending@.len() > 0 && self.free_buffers > 0
    }

    /// Initializes the camera peripheral: consumes the peripheral token,
    /// claims the pins, configures the clock, pixel format and frame
    /// size, and allocates the frame-buffer pool. Fails with a hardware
    /// initialization error if and only if the peripheral rejects the pin
    /// assignment or the frame size, and then hands the unclaimed token
    /// back beside the error. Exactly one device handle can be live per
    /// token: the token comes back only through [`Camera::teardown`].
    pub fn new(
        peripheral: CameraPeripheral,
        pins: PinAssignment,
        ledc_channel: u8,
        ledc_timer: u8,
        pixel_format: PixFormat,
        frame_size: u32,
    ) -> (r: Result<Camera, (CameraPeripheral, CamError)>)
        ensures
            pins.valid() && framesize_ok(frame_size) ==> (r matches Ok(cam) && cam.wf()
                && cam.config == config_spec(pins, ledc_channel, ledc_timer, pixel_format, frame_size)
                && cam.sensor.status == SensorStatus::initial_spec(frame_size, INIT_JPEG_QUALITY)
                && cam.sensor.pixformat == pixel_format && cam.pending@.len() == 0
                && cam.free_buffers == FB_COUNT && cam.outstanding == 0),
            !(pins.valid() && framesize_ok(frame_size)) ==> (r matches Err(e) && e.1
                == CamError::HardwareInit),
    {
        if !pins.check_valid() {
            return Err((peripheral, CamError::HardwareInit));
        }
        if frame_size > crate::sensor::MAX_FRAMESIZE {
            return Err((peripheral, CamError::HardwareInit));
        }
        let _claimed = peripheral;
        let config = build_config(&pins, ledc_channel, ledc_timer, pixel_format, frame_size);
        let sensor = CameraSensor::initial(frame_size, INIT_JPEG_QUALITY, pixel_format);
        Ok(Camera { config, sensor, pending: Vec::new(), free_buffers: FB_COUNT, outstanding: 0 })
    }

    /// Records one exposure completed by the hardware: the frame joins
    /// the queue the driver will serve captures from. This is the model's
    /// stand-in for the exposure/DMA cycle that the physical sensor runs
    /// on its own.
    pub fn deliver_frame(&mut self, frame: FrameData)
        ensures
            *final(self) == (Camera { pending: final(self).pending, ..*old(self) }),
            final(self).pending@ == old(self).pending@.push(frame),
    {
        self.pending.push(frame);
    }

    /// Captures one frame: hands out the oldest exposed frame in a pool
    /// buffer, or `None` when no frame is ready or no buffer is free —
    /// a valid, expected outcome, not a fault.
    pub fn get_framebuffer(&mut self) -> (r: Option<FrameBuffer>)
        requires
            old(self).wf(),
        ensures
            final(self).wf(),
            old(self).frame_ready() ==> (r matches Some(fb) && fb.frame == old(self).pending@[0]
                && final(self).pending@ == old(self).pending@.drop_first()
                && final(self).free_buffers == old(self).free_buffers - 1 && final(self).outstanding
                == old(self).outstanding + 1 && final(self).sensor == old(self).sensor
                && final(self).config == old(self).config),
            !old(self).frame_ready() ==> r is None && *final(self) == *old(self),
    {
        if self.pending.len() > 0 && self.free_buffers > 0 {
            let frame = self.pending.remove(0);
            self.free_buffers = self.free_buffers - 1;
            self.outstanding = self.outstanding + 1;
            proof {
                assert(final(self).pending@ =~= old(self).pending@.drop_first());
            }
            Some(FrameBuffer { frame })
        } else {
            None
        }
    }

    /// Returns a frame buffer to the driver's pool. The handle is
    /// consumed: its payload is invalid from here on, and a second
    /// release of the same handle cannot be written.
    pub fn return_framebuffer(&mut self, fb: FrameBuffer)
        requires
            old(self).wf(),
            old(self).outstanding >= 1,
        ensures
            final(self).wf(),
            *final(self) == (Camera {
                free_buffers: (old(self).free_buffers + 1) as usize,
                outstanding: (old(self).outstanding - 1) as usize,
                ..*old(self)
            }),
    {
        let _returned = fb;
        self.free_buffers = self.free_buffers + 1;
        self.outstanding = self.outstanding - 1;
    }

    /// The live sensor control surface. It always succeeds while the
    /// device handle is live, and it borrows the device exclusively, so
    /// no control call can race a capture or another control call.
    pub fn sensor(&mut self) -> (r: &mut CameraSensor)
        ensures
            *r == old(self).sensor,
            *final(self) == (Camera { sensor: *final(r), ..*old(self) }),
    {
        &mut self.sensor
    }

    /// Releases the physical peripheral and gives the peripheral token
    /// back. The device handle is consumed by value, so no further frame
    /// can be produced from it; no frame handle may be outstanding, so a
    /// frame can never outlive its device; and only now can a new device
    /// be initialized from the returned token.
    pub fn teardown(self) -> (r: CameraPeripheral)
        requires
            self.outstanding == 0,
    {
        let _released = self;
        CameraPeripheral { _claim: () }
    }
}

} // verus!
