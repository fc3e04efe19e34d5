use espcam::error::CamError;
use espcam::sensor::{CameraSensor, PixFormat, SensorStatus};

fn sensor() -> CameraSensor {
    CameraSensor::initial(13, 12, PixFormat::Jpeg)
}

#[test]
fn initial_status_snapshot() {
    let s = sensor();
    let st = *s.status();
    assert_eq!(st.framesize, 13);
    assert_eq!(st.quality, 12);
    assert_eq!(st.brightness, 0);
    assert_eq!(st.contrast, 0);
    assert_eq!(st.saturation, 0);
    assert_eq!(st.awb, 1);
    assert_eq!(st.aec, 1);
    assert_eq!(st.agc, 1);
    assert_eq!(st.colorbar, 0);
    assert!(!st.scale);
    assert!(!st.binning);
}

#[test]
fn brightness_in_range_is_applied() {
    let mut s = sensor();
    assert_eq!(s.set_brightness(2), Ok(()));
    assert_eq!(s.status().brightness, 2);
    assert_eq!(s.set_brightness(-2), Ok(()));
    assert_eq!(s.status().brightness, -2);
}

#[test]
fn brightness_out_of_range_is_rejected() {
    let mut s = sensor();
    let before = *s.status();
    assert_eq!(s.set_brightness(3), Err(CamError::SensorControl));
    assert_eq!(*s.status(), before);
}

#[test]
fn quality_bounds() {
    let mut s = sensor();
    assert_eq!(s.set_quality(0), Ok(()));
    assert_eq!(s.status().quality, 0);
    assert_eq!(s.set_quality(63), Ok(()));
    assert_eq!(s.status().quality, 63);
    assert_eq!(s.set_quality(64), Err(CamError::SensorControl));
    assert_eq!(s.set_quality(-1), Err(CamError::SensorControl));
    assert_eq!(s.status().quality, 63);
}

#[test]
fn contrast_and_saturation_and_sharpness() {
    let mut s = sensor();
    assert_eq!(s.set_contrast(1), Ok(()));
    assert_eq!(s.set_saturation(-1), Ok(()));
    assert_eq!(s.set_sharpness(2), Ok(()));
    assert_eq!(s.status().contrast, 1);
    assert_eq!(s.status().saturation, -1);
    assert_eq!(s.status().sharpness, 2);
    assert_eq!(s.set_contrast(-3), Err(CamError::SensorControl));
    assert_eq!(s.set_saturation(3), Err(CamError::SensorControl));
    assert_eq!(s.set_sharpness(9), Err(CamError::SensorControl));
}

#[test]
fn denoise_bounds() {
    let mut s = sensor();
    assert_eq!(s.set_denoise(8), Ok(()));
    assert_eq!(s.status().denoise, 8);
    assert_eq!(s.set_denoise(9), Err(CamError::SensorControl));
}

#[test]
fn gainceiling_bounds() {
    let mut s = sensor();
    assert_eq!(s.set_gainceiling(6), Ok(()));
    assert_eq!(s.status().gainceiling, 6);
    assert_eq!(s.set_gainceiling(7), Err(CamError::SensorControl));
}

#[test]
fn gain_and_exposure_values() {
    let mut s = sensor();
    assert_eq!(s.set_agc_gain(30), Ok(()));
    assert_eq!(s.status().agc_gain, 30);
    assert_eq!(s.set_agc_gain(31), Err(CamError::SensorControl));
    assert_eq!(s.set_aec_value(1200), Ok(()));
    assert_eq!(s.status().aec_value, 1200);
    assert_eq!(s.set_aec_value(1201), Err(CamError::SensorControl));
    assert_eq!(s.set_ae_level(-2), Ok(()));
    assert_eq!(s.status().ae_level, -2);
    assert_eq!(s.set_ae_level(5), Err(CamError::SensorControl));
}

#[test]
fn effect_and_wb_mode() {
    let mut s = sensor();
    assert_eq!(s.set_special_effect(6), Ok(()));
    assert_eq!(s.status().special_effect, 6);
    assert_eq!(s.set_special_effect(7), Err(CamError::SensorControl));
    assert_eq!(s.set_wb_mode(4), Ok(()));
    assert_eq!(s.status().wb_mode, 4);
    assert_eq!(s.set_wb_mode(5), Err(CamError::SensorControl));
}

#[test]
fn toggles_write_one_and_zero() {
    let mut s = sensor();
    assert_eq!(s.set_colorbar(true), Ok(()));
    assert_eq!(s.status().colorbar, 1);
    assert_eq!(s.set_colorbar(false), Ok(()));
    assert_eq!(s.status().colorbar, 0);
    assert_eq!(s.set_whitebal(false), Ok(()));
    assert_eq!(s.status().awb, 0);
    assert_eq!(s.set_gain_ctrl(false), Ok(()));
    assert_eq!(s.status().agc, 0);
    assert_eq!(s.set_exposure_ctrl(false), Ok(()));
    assert_eq!(s.status().aec, 0);
    assert_eq!(s.set_hmirror(true), Ok(()));
    assert_eq!(s.status().hmirror, 1);
    assert_eq!(s.set_vflip(true), Ok(()));
    assert_eq!(s.status().vflip, 1);
    assert_eq!(s.set_aec2(true), Ok(()));
    assert_eq!(s.status().aec2, 1);
    assert_eq!(s.set_awb_gain(false), Ok(()));
    assert_eq!(s.status().awb_gain, 0);
    assert_eq!(s.set_dcw(false), Ok(()));
    assert_eq!(s.status().dcw, 0);
    assert_eq!(s.set_bpc(true), Ok(()));
    assert_eq!(s.status().bpc, 1);
    assert_eq!(s.set_wpc(false), Ok(()));
    assert_eq!(s.status().wpc, 0);
    assert_eq!(s.set_raw_gma(false), Ok(()));
    assert_eq!(s.status().raw_gma, 0);
    assert_eq!(s.set_lenc(false), Ok(()));
    assert_eq!(s.status().lenc, 0);
}

#[test]
fn framesize_bounds() {
    let mut s = sensor();
    assert_eq!(s.set_framesize(9), Ok(()));
    assert_eq!(s.status().framesize, 9);
    assert_eq!(s.set_framesize(14), Err(CamError::SensorControl));
    assert_eq!(s.status().framesize, 9);
}

#[test]
fn pixformat_is_stored() {
    let mut s = sensor();
    assert_eq!(s.set_pixformat(PixFormat::Grayscale), Ok(()));
    assert_eq!(s.pixformat, PixFormat::Grayscale);
}

#[test]
fn register_write_and_read() {
    let mut s = sensor();
    assert_eq!(s.set_reg(0x12, 0xFF, 0x34), Ok(()));
    assert_eq!(s.regs[0x12], 0x34);
    // a read yields the masked value, nonzero or not
    assert_eq!(s.get_reg(0x12, 0xFF), Ok(0x34));
    assert_eq!(s.get_reg(0x12, 0x0F), Ok(0x04));
    assert_eq!(s.get_reg(0x12, 0x00), Ok(0x00));
    assert_eq!(s.get_reg(0x13, 0xFF), Ok(0x00));
    // only the masked bits are written
    assert_eq!(s.set_reg(0x12, 0x0F, 0xFF), Ok(()));
    assert_eq!(s.regs[0x12], 0x3F);
    // the driver rejects only an out-of-range address or mask
    assert_eq!(s.set_reg(256, 0xFF, 0), Err(CamError::SensorControl));
    assert_eq!(s.get_reg(-1, 0xFF), Err(CamError::SensorControl));
    assert_eq!(s.get_reg(0x12, 256), Err(CamError::SensorControl));
}

#[test]
fn raw_window_bounds() {
    let mut s = sensor();
    assert_eq!(
        s.set_res_raw(0, 0, 1600, 1200, 0, 0, 1600, 1200, 800, 600, true, false),
        Ok(())
    );
    assert!(s.status().scale);
    assert!(!s.status().binning);
    assert_eq!(s.window.end_x, 1600);
    assert_eq!(s.window.output_y, 600);
    assert_eq!(
        s.set_res_raw(100, 0, 50, 1200, 0, 0, 1600, 1200, 800, 600, false, false),
        Err(CamError::SensorControl)
    );
    assert_eq!(
        s.set_res_raw(0, 0, 1600, 1200, 0, 0, 1600, 1200, 0, 600, false, false),
        Err(CamError::SensorControl)
    );
}

#[test]
fn pll_and_xclk_are_stored() {
    let mut s = sensor();
    assert_eq!(s.set_pll(0, 8, 1, 2, 1, 0, 1, 2), Ok(()));
    assert_eq!(s.pll.mul, 8);
    assert_eq!(s.set_xclk(1, 20000000), Ok(()));
    assert_eq!(s.xclk.timer, 1);
    assert_eq!(s.xclk.xclk, 20000000);
}

#[test]
fn init_status_changes_nothing() {
    let mut s = sensor();
    s.set_brightness(1).unwrap();
    let before = *s.status();
    assert_eq!(s.init_status(), Ok(()));
    assert_eq!(*s.status(), before);
}

#[test]
fn reset_restores_power_on_state() {
    let mut s = sensor();
    s.set_brightness(2).unwrap();
    s.set_colorbar(true).unwrap();
    s.set_reg(0x10, 0xFF, 0xAB).unwrap();
    assert_eq!(s.reset(), Ok(()));
    assert_eq!(*s.status(), SensorStatus::initial(13, 12));
    assert_eq!(s.regs[0x10], 0);
}
