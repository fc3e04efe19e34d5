//! Model of the live sensor control surface: a point-in-time status
//! snapshot, a register file, and the family of `set_*` calls that mutate
//! live device state.
//!
//! The physical driver is authoritative about which values it accepts; the
//! model fixes that judgement as the documented acceptance ranges of the
//! sensor this library was written against, so that every call has an
//! exact contract: a call succeeds if and only if its value is in range,
//! and on success the snapshot reflects exactly that value.

use vstd::prelude::*;

use crate::error::CamError;

verus! {

/// Pixel formats the driver can be configured for.
#[derive(Clone, Copy, Debug, PartialEq, Eq, Structural)]
pub enum PixFormat {
    Rgb565,
    Yuv422,
    Yuv420,
    Grayscale,
    Jpeg,
    Rgb888,
    Raw,
    Rgb444,
    Rgb555,
}

/// The full, point-in-time sensor parameter snapshot, as the status
/// query reports it.
#[derive(Clone, Copy, Debug, PartialEq, Eq, Structural)]
pub struct SensorStatus {
    pub framesize: u32,
    pub scale: bool,
    pub binning: bool,
    pub quality: u8,
    pub brightness: i8,
    pub contrast: i8,
    pub saturation: i8,
    pub sharpness: i8,
    pub denoise: u8,
    pub special_effect: u8,
    pub wb_mode: u8,
    pub awb: u8,
    pub awb_gain: u8,
    pub aec: u8,
    pub aec2: u8,
    pub ae_level: i8,
    pub aec_value: u16,
    pub agc: u8,
    pub agc_gain: u8,
    pub gainceiling: u8,
    pub bpc: u8,
    pub wpc: u8,
    pub raw_gma: u8,
    pub lenc: u8,
    pub hmirror: u8,
    pub vflip: u8,
    pub dcw: u8,
    pub colorbar: u8,
}

/// Column/row windowing state, set through the raw resolution call.
#[derive(Clone, Copy, Debug, PartialEq, Eq, Structural)]
pub struct WindowConfig {
    pub start_x: i32,
    pub start_y: i32,
    pub end_x: i32,
    pub end_y: i32,
    pub offset_x: i32,
    pub offset_y: i32,
    pub total_x: i32,
    pub total_y: i32,
    pub output_x: i32,
    pub output_y: i32,
}

/// Sensor clock multiplier configuration.
#[derive(Clone, Copy, Debug, PartialEq, Eq, Structural)]
pub struct PllConfig {
    pub bypass: i32,
    pub mul: i32,
    pub sys: i32,
    pub root: i32,
    pub pre: i32,
    pub seld5: i32,
    pub pclken: i32,
    pub pclk: i32,
}

/// External clock configuration.
#[derive(Clone, Copy, Debug, PartialEq, Eq, Structural)]
pub struct XclkConfig {
    pub timer: i32,
    pub xclk: i32,
}

/// Largest frame size index the modeled sensor supports.
pub const MAX_FRAMESIZE: u32 = 13;

/// Acceptance range of the signed fine-adjustment controls
/// (brightness, contrast, saturation, sharpness, auto-exposure level).
pub open spec fn level_ok(v: i32) -> bool {
    -2 <= v <= 2
}

/// Acceptance range of the compression quality control.
pub open spec fn quality_ok(v: i32) -> bool {
    0 <= v <= 63
}

/// Acceptance range of the denoise strength control.
pub open spec fn denoise_ok(v: i32) -> bool {
    0 <= v <= 8
}

/// Acceptance range of the gain ceiling control.
pub open spec fn gainceiling_ok(v: u32) -> bool {
    v <= 6
}

/// Acceptance range of the manual sensor gain control.
pub open spec fn agc_gain_ok(v: i32) -> bool {
    0 <= v <= 30
}

/// Acceptance range of the manual exposure value control.
pub open spec fn aec_value_ok(v: i32) -> bool {
    0 <= v <= 1200
}

/// Acceptance range of the special effect selector.
pub open spec fn special_effect_ok(v: i32) -> bool {
    0 <= v <= 6
}

/// Acceptance range of the white-balance mode selector.
pub open spec fn wb_mode_ok(v: i32) -> bool {
    0 <= v <= 4
}

/// Acceptance range of the frame size selector.
pub open spec fn framesize_ok(v: u32) -> bool {
    v <= MAX_FRAMESIZE
}

/// Acceptance range of a raw register address, mask or value.
pub open spec fn reg_ok(v: i32) -> bool {
    0 <= v <= 255
}

impl SensorStatus {
    /// The snapshot right after initialization: every adjustment at its
    /// modeled power-on default, the automatic controls (white balance,
    /// exposure, gain) and the pixel corrections enabled, and the frame
    /// size and quality as the initialization configured them.
    pub open spec fn initial_spec(framesize: u32, quality: u8) -> SensorStatus {
        SensorStatus {
            framesize,
            scale: false,
            binning: false,
            quality,
            brightness: 0,
            contrast: 0,
            saturation: 0,
            sharpness: 0,
            denoise: 0,
            special_effect: 0,
            wb_mode: 0,
            awb: 1,
            awb_gain: 1,
            aec: 1,
            aec2: 0,
            ae_level: 0,
            aec_value: 0,
            agc: 1,
            agc_gain: 0,
            gainceiling: 0,
            bpc: 0,
            wpc: 1,
            raw_gma: 1,
            lenc: 1,
            hmirror: 0,
            vflip: 0,
            dcw: 1,
            colorbar: 0,
        }
    }

    /// Builds the initial snapshot for the given frame size and quality.
    pub fn initial(framesize: u32, quality: u8) -> (r: SensorStatus)
        ensures
            r == SensorStatus::initial_spec(framesize, quality),
    {
        SensorStatus {
            framesize,
            scale: false,
            binning: false,
            quality,
            brightness: 0,
            contrast: 0,
            saturation: 0,
            sharpness: 0,
            denoise: 0,
            special_effect: 0,
            wb_mode: 0,
            awb: 1,
            awb_gain: 1,
            aec: 1,
            aec2: 0,
            ae_level: 0,
            aec_value: 0,
            agc: 1,
            agc_gain: 0,
            gainceiling: 0,
            bpc: 0,
            wpc: 1,
            raw_gma: 1,
            lenc: 1,
            hmirror: 0,
            vflip: 0,
            dcw: 1,
            colorbar: 0,
        }
    }
}

/// The live, mutable view into the sensor's register and state machine.
/// It is reached only through the device handle, so it cannot outlive the
/// device, and exclusive access to the device serializes every use of it.
pub struct CameraSensor {
    pub status: SensorStatus,
    pub regs: Vec<u8>,
    pub window: WindowConfig,
    pub pll: PllConfig,
    pub xclk: XclkConfig,
    pub pixformat: PixFormat,
}

impl CameraSensor {
    /// Well-formedness: the register file covers the full 8-bit address
    /// space.
    pub open spec fn wf(&self) -> bool {
        self.regs@.len() == 256
    }

    /// The zeroed windowing state.
    pub open spec fn window_initial_spec() -> WindowConfig {
        WindowConfig {
            start_x: 0,
            start_y: 0,
            end_x: 0,
            end_y: 0,
            offset_x: 0,
            offset_y: 0,
            total_x: 0,
            total_y: 0,
            output_x: 0,
            output_y: 0,
        }
    }

    /// Builds a zeroed register file.
    fn zero_regs() -> (r: Vec<u8>)
        ensures
            r@ == Seq::new(256, |i: int| 0u8),
    {
        let mut regs: Vec<u8> = Vec::new();
        let mut i: usize = 0;
        while i < 256
            invariant
                i <= 256,
                regs@ =~= Seq::new(i as nat, |j: int| 0u8),
            decreases 256 - i,
        {
            regs.push(0);
            i += 1;
        }
        proof {
            assert(regs@ =~= Seq::new(256, |j: int| 0u8));
        }
        regs
    }

    /// Builds the initial sensor state.
    pub fn initial(framesize: u32, quality: u8, pixformat: PixFormat) -> (r: CameraSensor)
        ensures
            r.wf(),
            r.status == SensorStatus::initial_spec(framesize, quality),
            r.regs@ == Seq::new(256, |i: int| 0u8),
            r.window == CameraSensor::window_initial_spec(),
            r.pixformat == pixformat,
    {
        let regs = CameraSensor::zero_regs();
        CameraSensor {
            status: SensorStatus::initial(framesize, quality),
            regs,
            window: WindowConfig {
                start_x: 0,
                start_y: 0,
                end_x: 0,
                end_y: 0,
                offset_x: 0,
                offset_y: 0,
                total_x: 0,
                total_y: 0,
                output_x: 0,
                output_y: 0,
            },
            pll: PllConfig { bypass: 0, mul: 0, sys: 0, root: 0, pre: 0, seld5: 0, pclken: 0, pclk: 0 },
            xclk: XclkConfig { timer: 0, xclk: 0 },
            pixformat,
        }
    }

    /// The read-only, point-in-time status snapshot.
    pub fn status(&self) -> (r: &SensorStatus)
        ensures
            r == self.status,
    {
        &self.status
    }

    /// Sets the frame size; the driver accepts sizes the sensor supports.
    pub fn set_framesize(&mut self, framesize: u32) -> (r: Result<(), CamError>)
        ensures
            framesize_ok(framesize) ==> r == Ok::<(), CamError>(()) && *final(self) == (CameraSensor {
                status: (SensorStatus { framesize, ..old(self).status }),
                ..*old(self)
            }),
            !framesize_ok(framesize) ==> r == Err::<(), CamError>(CamError::SensorControl) && *final(self)
                == *old(self),
    {
        if framesize <= MAX_FRAMESIZE {
            self.status.framesize = framesize;
            Ok(())
        } else {
            Err(CamError::SensorControl)
        }
    }

    /// Sets the compression quality.
    pub fn set_quality(&mut self, quality: i32) -> (r: Result<(), CamError>)
        ensures
            quality_ok(quality) ==> r == Ok::<(), CamError>(()) && *final(self) == (CameraSensor {
                status: (SensorStatus { quality: quality as u8, ..old(self).status }),
                ..*old(self)
            }),
            !quality_ok(quality) ==> r == Err::<(), CamError>(CamError::SensorControl) && *final(self)
                == *old(self),
    {
        if 0 <= quality && quality <= 63 {
            self.status.quality = quality as u8;
            Ok(())
        } else {
            Err(CamError::SensorControl)
        }
    }

    /// Sets the contrast adjustment.
    pub fn set_contrast(&mut self, level: i32) -> (r: Result<(), CamError>)
        ensures
            level_ok(level) ==> r == Ok::<(), CamError>(()) && *final(self) == (CameraSensor {
                status: (SensorStatus { contrast: level as i8, ..old(self).status }),
                ..*old(self)
            }),
            !level_ok(level) ==> r == Err::<(), CamError>(CamError::SensorControl) && *final(self)
                == *old(self),
    {
        if -2 <= level && level <= 2 {
            self.status.contrast = level as i8;
            Ok(())
        } else {
            Err(CamError::SensorControl)
        }
    }

    /// Sets the brightness adjustment.
    pub fn set_brightness(&mut self, level: i32) -> (r: Result<(), CamError>)
        ensures
            level_ok(level) ==> r == Ok::<(), CamError>(()) && *final(self) == (CameraSensor {
                status: (SensorStatus { brightness: level as i8, ..old(self).status }),
                ..*old(self)
            }),
            !level_ok(level) ==> r == Err::<(), CamError>(CamError::SensorControl) && *final(self)
                == *old(self),
    {
        if -2 <= level && level <= 2 {
            self.status.brightness = level as i8;
            Ok(())
        } else {
            Err(CamError::SensorControl)
        }
    }

    /// Sets the saturation adjustment.
    pub fn set_saturation(&mut self, level: i32) -> (r: Result<(), CamError>)
        ensures
            level_ok(level) ==> r == Ok::<(), CamError>(()) && *final(self) == (CameraSensor {
                status: (SensorStatus { saturation: level as i8, ..old(self).status }),
                ..*old(self)
            }),
            !level_ok(level) ==> r == Err::<(), CamError>(CamError::SensorControl) && *final(self)
                == *old(self),
    {
        if -2 <= level && level <= 2 {
            self.status.saturation = level as i8;
            Ok(())
        } else {
            Err(CamError::SensorControl)
        }
    }

    /// Sets the sharpness adjustment.
    pub fn set_sharpness(&mut self, level: i32) -> (r: Result<(), CamError>)
        ensures
            level_ok(level) ==> r == Ok::<(), CamError>(()) && *final(self) == (CameraSensor {
                status: (SensorStatus { sharpness: level as i8, ..old(self).status }),
                ..*old(self)
            }),
            !level_ok(level) ==> r == Err::<(), CamError>(CamError::SensorControl) && *final(self)
                == *old(self),
    {
        if -2 <= level && level <= 2 {
            self.status.sharpness = level as i8;
            Ok(())
        } else {
            Err(CamError::SensorControl)
        }
    }

    /// Sets the denoise strength.
    pub fn set_denoise(&mut self, level: i32) -> (r: Result<(), CamError>)
        ensures
            denoise_ok(level) ==> r == Ok::<(), CamError>(()) && *final(self) == (CameraSensor {
                status: (SensorStatus { denoise: level as u8, ..old(self).status }),
                ..*old(self)
            }),
            !denoise_ok(level) ==> r == Err::<(), CamError>(CamError::SensorControl) && *final(self)
                == *old(self),
    {
        if 0 <= level && level <= 8 {
            self.status.denoise = level as u8;
            Ok(())
        } else {
            Err(CamError::SensorControl)
        }
    }

    /// Sets the automatic gain ceiling.
    pub fn set_gainceiling(&mut self, gainceiling: u32) -> (r: Result<(), CamError>)
        ensures
            gainceiling_ok(gainceiling) ==> r == Ok::<(), CamError>(()) && *final(self)
                == (CameraSensor {
                status: (SensorStatus { gainceiling: gainceiling as u8, ..old(self).status }),
                ..*old(self)
            }),
            !gainceiling_ok(gainceiling) ==> r == Err::<(), CamError>(CamError::SensorControl)
                && *final(self) == *old(self),
    {
        if gainceiling <= 6 {
            self.status.gainceiling = gainceiling as u8;
            Ok(())
        } else {
            Err(CamError::SensorControl)
        }
    }

    /// Sets the pixel format the sensor emits.
    pub fn set_pixformat(&mut self, format: PixFormat) -> (r: Result<(), CamError>)
        ensures
            r == Ok::<(), CamError>(()),
            *final(self) == (CameraSensor { pixformat: format, ..*old(self) }),
    {
        self.pixformat = format;
        Ok(())
    }

    /// Enables or disables the colorbar test pattern.
    pub fn set_colorbar(&mut self, enable: bool) -> (r: Result<(), CamError>)
        ensures
            r == Ok::<(), CamError>(()),
            *final(self) == (CameraSensor {
                status: (SensorStatus {
                    colorbar: if enable { 1u8 } else { 0u8 },
                    ..old(self).status
                }),
                ..*old(self)
            }),
    {
        self.status.colorbar = if enable { 1 } else { 0 };
        Ok(())
    }

    /// Enables or disables automatic white balance.
    pub fn set_whitebal(&mut self, enable: bool) -> (r: Result<(), CamError>)
        ensures
            r == Ok::<(), CamError>(()),
            *final(self) == (CameraSensor {
                status: (SensorStatus { awb: if enable { 1u8 } else { 0u8 }, ..old(self).status }),
                ..*old(self)
            }),
    {
        self.status.awb = if enable { 1 } else { 0 };
        Ok(())
    }

    /// Enables or disables automatic gain control.
    pub fn set_gain_ctrl(&mut self, enable: bool) -> (r: Result<(), CamError>)
        ensures
            r == Ok::<(), CamError>(()),
            *final(self) == (CameraSensor {
                status: (SensorStatus { agc: if enable { 1u8 } else { 0u8 }, ..old(self).status }),
                ..*old(self)
            }),
    {
        self.status.agc = if enable { 1 } else { 0 };
        Ok(())
    }

    /// Enables or disables automatic exposure control.
    pub fn set_exposure_ctrl(&mut self, enable: bool) -> (r: Result<(), CamError>)
        ensures
            r == Ok::<(), CamError>(()),
            *final(self) == (CameraSensor {
                status: (SensorStatus { aec: if enable { 1u8 } else { 0u8 }, ..old(self).status }),
                ..*old(self)
            }),
    {
        self.status.aec = if enable { 1 } else { 0 };
        Ok(())
    }

    /// Enables or disables horizontal mirroring.
    pub fn set_hmirror(&mut self, enable: bool) -> (r: Result<(), CamError>)
        ensures
            r == Ok::<(), CamError>(()),
            *final(self) == (CameraSensor {
                status: (SensorStatus {
                    hmirror: if enable { 1u8 } else { 0u8 },
                    ..old(self).status
                }),
                ..*old(self)
            }),
    {
        self.status.hmirror = if enable { 1 } else { 0 };
        Ok(())
    }

    /// Enables or disables vertical flipping.
    pub fn set_vflip(&mut self, enable: bool) -> (r: Result<(), CamError>)
        ensures
            r == Ok::<(), CamError>(()),
            *final(self) == (CameraSensor {
                status: (SensorStatus { vflip: if enable { 1u8 } else { 0u8 }, ..old(self).status }),
                ..*old(self)
            }),
    {
        self.status.vflip = if enable { 1 } else { 0 };
        Ok(())
    }

    /// Enables or disables the second automatic exposure stage.
    pub fn set_aec2(&mut self, enable: bool) -> (r: Result<(), CamError>)
        ensures
            r == Ok::<(), CamError>(()),
            *final(self) == (CameraSensor {
                status: (SensorStatus { aec2: if enable { 1u8 } else { 0u8 }, ..old(self).status }),
                ..*old(self)
            }),
    {
        self.status.aec2 = if enable { 1 } else { 0 };
        Ok(())
    }

    /// Enables or disables the automatic white-balance gain.
    pub fn set_awb_gain(&mut self, enable: bool) -> (r: Result<(), CamError>)
        ensures
            r == Ok::<(), CamError>(()),
            *final(self) == (CameraSensor {
                status: (SensorStatus {
                    awb_gain: if enable { 1u8 } else { 0u8 },
                    ..old(self).status
                }),
                ..*old(self)
            }),
    {
        self.status.awb_gain = if enable { 1 } else { 0 };
        Ok(())
    }

    /// Sets the manual sensor gain.
    pub fn set_agc_gain(&mut self, gain: i32) -> (r: Result<(), CamError>)
        ensures
            agc_gain_ok(gain) ==> r == Ok::<(), CamError>(()) && *final(self) == (CameraSensor {
                status: (SensorStatus { agc_gain: gain as u8, ..old(self).status }),
                ..*old(self)
            }),
            !agc_gain_ok(gain) ==> r == Err::<(), CamError>(CamError::SensorControl) && *final(self)
                == *old(self),
    {
        if 0 <= gain && gain <= 30 {
            self.status.agc_gain = gain as u8;
            Ok(())
        } else {
            Err(CamError::SensorControl)
        }
    }

    /// Sets the manual exposure value.
    pub fn set_aec_value(&mut self, gain: i32) -> (r: Result<(), CamError>)
        ensures
            aec_value_ok(gain) ==> r == Ok::<(), CamError>(()) && *final(self) == (CameraSensor {
                status: (SensorStatus { aec_value: gain as u16, ..old(self).status }),
                ..*old(self)
            }),
            !aec_value_ok(gain) ==> r == Err::<(), CamError>(CamError::SensorControl) && *final(self)
                == *old(self),
    {
        if 0 <= gain && gain <= 1200 {
            self.status.aec_value = gain as u16;
            Ok(())
        } else {
            Err(CamError::SensorControl)
        }
    }

    /// Selects a special effect.
    pub fn set_special_effect(&mut self, effect: i32) -> (r: Result<(), CamError>)
        ensures
            special_effect_ok(effect) ==> r == Ok::<(), CamError>(()) && *final(self)
                == (CameraSensor {
                status: (SensorStatus { special_effect: effect as u8, ..old(self).status }),
                ..*old(self)
            }),
            !special_effect_ok(effect) ==> r == Err::<(), CamError>(CamError::SensorControl)
                && *final(self) == *old(self),
    {
        if 0 <= effect && effect <= 6 {
            self.status.special_effect = effect as u8;
            Ok(())
        } else {
            Err(CamError::SensorControl)
        }
    }

    /// Selects a white-balance mode.
    pub fn set_wb_mode(&mut self, mode: i32) -> (r: Result<(), CamError>)
        ensures
            wb_mode_ok(mode) ==> r == Ok::<(), CamError>(()) && *final(self) == (CameraSensor {
                status: (SensorStatus { wb_mode: mode as u8, ..old(self).status }),
                ..*old(self)
            }),
            !wb_mode_ok(mode) ==> r == Err::<(), CamError>(CamError::SensorControl) && *final(self)
                == *old(self),
    {
        if 0 <= mode && mode <= 4 {
            self.status.wb_mode = mode as u8;
            Ok(())
        } else {
            Err(CamError::SensorControl)
        }
    }

    /// Sets the automatic exposure level.
    pub fn set_ae_level(&mut self, level: i32) -> (r: Result<(), CamError>)
        ensures
            level_ok(level) ==> r == Ok::<(), CamError>(()) && *final(self) == (CameraSensor {
                status: (SensorStatus { ae_level: level as i8, ..old(self).status }),
                ..*old(self)
            }),
            !level_ok(level) ==> r == Err::<(), CamError>(CamError::SensorControl) && *final(self)
                == *old(self),
    {
        if -2 <= level && level <= 2 {
            self.status.ae_level = level as i8;
            Ok(())
        } else {
            Err(CamError::SensorControl)
        }
    }

    /// Enables or disables downsize cropping and windowing.
    pub fn set_dcw(&mut self, enable: bool) -> (r: Result<(), CamError>)
        ensures
            r == Ok::<(), CamError>(()),
            *final(self) == (CameraSensor {
                status: (SensorStatus { dcw: if enable { 1u8 } else { 0u8 }, ..old(self).status }),
                ..*old(self)
            }),
    {
        self.status.dcw = if enable { 1 } else { 0 };
        Ok(())
    }

    /// Enables or disables black-pixel correction.
    pub fn set_bpc(&mut self, enable: bool) -> (r: Result<(), CamError>)
        ensures
            r == Ok::<(), CamError>(()),
            *final(self) == (CameraSensor {
                status: (SensorStatus { bpc: if enable { 1u8 } else { 0u8 }, ..old(self).status }),
                ..*old(self)
            }),
    {
        self.status.bpc = if enable { 1 } else { 0 };
        Ok(())
    }

    /// Enables or disables white-pixel correction.
    pub fn set_wpc(&mut self, enable: bool) -> (r: Result<(), CamError>)
        ensures
            r == Ok::<(), CamError>(()),
            *final(self) == (CameraSensor {
                status: (SensorStatus { wpc: if enable { 1u8 } else { 0u8 }, ..old(self).status }),
                ..*old(self)
            }),
    {
        self.status.wpc = if enable { 1 } else { 0 };
        Ok(())
    }

    /// Enables or disables raw gamma correction.
    pub fn set_raw_gma(&mut self, enable: bool) -> (r: Result<(), CamError>)
        ensures
            r == Ok::<(), CamError>(()),
            *final(self) == (CameraSensor {
                status: (SensorStatus {
                    raw_gma: if enable { 1u8 } else { 0u8 },
                    ..old(self).status
                }),
                ..*old(self)
            }),
    {
        self.status.raw_gma = if enable { 1 } else { 0 };
        Ok(())
    }

    /// Enables or disables lens correction.
    pub fn set_lenc(&mut self, enable: bool) -> (r: Result<(), CamError>)
        ensures
            r == Ok::<(), CamError>(()),
            *final(self) == (CameraSensor {
                status: (SensorStatus { lenc: if enable { 1u8 } else { 0u8 }, ..old(self).status }),
                ..*old(self)
            }),
    {
        self.status.lenc = if enable { 1 } else { 0 };
        Ok(())
    }

    /// Reads the masked bits of a raw sensor register. The driver rejects
    /// only an out-of-range address or mask; a successful read yields the
    /// masked value, whatever it is.
    pub fn get_reg(&mut self, reg: i32, mask: i32) -> (r: Result<u8, CamError>)
        requires
            old(self).wf(),
        ensures
            *final(self) == *old(self),
            reg_ok(reg) && reg_ok(mask) ==> r == Ok::<u8, CamError>(
                old(self).regs@[reg as int] & (mask as u8),
            ),
            !(reg_ok(reg) && reg_ok(mask)) ==> r == Err::<u8, CamError>(CamError::SensorControl),
    {
        if 0 <= reg && reg <= 255 && 0 <= mask && mask <= 255 {
            let current = self.regs[reg as usize];
            Ok(current & (mask as u8))
        } else {
            Err(CamError::SensorControl)
        }
    }

    /// Writes the masked bits of a raw sensor register.
    pub fn set_reg(&mut self, reg: i32, mask: i32, value: i32) -> (r: Result<(), CamError>)
        requires
            old(self).wf(),
        ensures
            final(self).wf(),
            reg_ok(reg) && reg_ok(mask) && reg_ok(value) ==> r == Ok::<(), CamError>(())
                && *final(self) == (CameraSensor { regs: final(self).regs, ..*old(self) })
                && final(self).regs@ == old(self).regs@.update(
                reg as int,
                (old(self).regs@[reg as int] & !(mask as u8)) | ((value as u8) & (mask as u8)),
            ),
            !(reg_ok(reg) && reg_ok(mask) && reg_ok(value)) ==> r == Err::<(), CamError>(
                CamError::SensorControl,
            ) && *final(self) == *old(self),
    {
        if 0 <= reg && reg <= 255 && 0 <= mask && mask <= 255 && 0 <= value && value <= 255 {
            let current = self.regs[reg as usize];
            let updated = (current & !(mask as u8)) | ((value as u8) & (mask as u8));
            self.regs.set(reg as usize, updated);
            Ok(())
        } else {
            Err(CamError::SensorControl)
        }
    }

    /// Whether the raw windowing request is one the driver accepts.
    pub open spec fn window_ok(w: WindowConfig) -> bool {
        &&& 0 <= w.start_x <= w.end_x
        &&& 0 <= w.start_y <= w.end_y
        &&& w.output_x > 0
        &&& w.output_y > 0
    }

    /// Sets the raw capture window, scaling and binning.
    pub fn set_res_raw(
        &mut self,
        start_x: i32,
        start_y: i32,
        end_x: i32,
        end_y: i32,
        offset_x: i32,
        offset_y: i32,
        total_x: i32,
        total_y: i32,
        output_x: i32,
        output_y: i32,
        scale: bool,
        binning: bool,
    ) -> (r: Result<(), CamError>)
        ensures
            CameraSensor::window_ok(
                WindowConfig {
                    start_x,
                    start_y,
                    end_x,
                    end_y,
                    offset_x,
                    offset_y,
                    total_x,
                    total_y,
                    output_x,
                    output_y,
                },
            ) ==> r == Ok::<(), CamError>(()) && *final(self) == (CameraSensor {
                status: (SensorStatus { scale, binning, ..old(self).status }),
                window: (WindowConfig {
                    start_x,
                    start_y,
                    end_x,
                    end_y,
                    offset_x,
                    offset_y,
                    total_x,
                    total_y,
                    output_x,
                    output_y,
                }),
                ..*old(self)
            }),
            !CameraSensor::window_ok(
                WindowConfig {
                    start_x,
                    start_y,
                    end_x,
                    end_y,
                    offset_x,
                    offset_y,
                    total_x,
                    total_y,
                    output_x,
                    output_y,
                },
            ) ==> r == Err::<(), CamError>(CamError::SensorControl) && *final(self) == *old(self),
    {
        if 0 <= start_x && start_x <= end_x && 0 <= start_y && start_y <= end_y && output_x > 0
            && output_y > 0 {
            self.window = WindowConfig {
                start_x,
                start_y,
                end_x,
                end_y,
                offset_x,
                offset_y,
                total_x,
                total_y,
                output_x,
                output_y,
            };
            self.status.scale = scale;
            self.status.binning = binning;
            Ok(())
        } else {
            Err(CamError::SensorControl)
        }
    }

    /// Configures the sensor's clock multiplier.
    pub fn set_pll(
        &mut self,
        bypass: i32,
        mul: i32,
        sys: i32,
        root: i32,
        pre: i32,
        seld5: i32,
        pclken: i32,
        pclk: i32,
    ) -> (r: Result<(), CamError>)
        ensures
            r == Ok::<(), CamError>(()),
            *final(self) == (CameraSensor {
                pll: (PllConfig { bypass, mul, sys, root, pre, seld5, pclken, pclk }),
                ..*old(self)
            }),
    {
        self.pll = PllConfig { bypass, mul, sys, root, pre, seld5, pclken, pclk };
        Ok(())
    }

    /// Configures the external clock source.
    pub fn set_xclk(&mut self, timer: i32, xclk: i32) -> (r: Result<(), CamError>)
        ensures
            r == Ok::<(), CamError>(()),
            *final(self) == (CameraSensor { xclk: (XclkConfig { timer, xclk }), ..*old(self) }),
    {
        self.xclk = XclkConfig { timer, xclk };
        Ok(())
    }

    /// Re-reads the cached snapshot from the live sensor. The snapshot
    /// here is the live state itself, so the call reports success and
    /// changes nothing.
    pub fn init_status(&mut self) -> (r: Result<(), CamError>)
        ensures
            r == Ok::<(), CamError>(()),
            *final(self) == *old(self),
    {
        Ok(())
    }

    /// Resets the sensor to its power-on state: every adjustment back to
    /// the initial snapshot (the configured frame size and quality are
    /// re-applied), the register file and capture window cleared; the
    /// host-side clock configuration is left alone.
    pub fn reset(&mut self) -> (r: Result<(), CamError>)
        ensures
            r == Ok::<(), CamError>(()),
            final(self).wf(),
            final(self).status == SensorStatus::initial_spec(
                old(self).status.framesize,
                old(self).status.quality,
            ),
            final(self).regs@ == Seq::new(256, |i: int| 0u8),
            final(self).window == CameraSensor::window_initial_spec(),
            final(self).pll == old(self).pll,
            final(self).xclk == old(self).xclk,
            final(self).pixformat == old(self).pixformat,
    {
        self.status = SensorStatus::initial(self.status.framesize, self.status.quality);
        self.regs = CameraSensor::zero_regs();
        self.window = WindowConfig {
            start_x: 0,
            start_y: 0,
            end_x: 0,
            end_y: 0,
            offset_x: 0,
            offset_y: 0,
            total_x: 0,
            total_y: 0,
            output_x: 0,
            output_y: 0,
        };
        Ok(())
    }
}

} // verus!
