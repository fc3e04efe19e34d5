use espcam::device::{Camera, CameraPeripheral, FrameData, PinAssignment, Timeval, FB_COUNT};
use espcam::error::CamError;
use espcam::sensor::PixFormat;

fn pins() -> PinAssignment {
    PinAssignment {
        pin_pwdn: None,
        pin_xclk: 15,
        pin_d0: 11,
        pin_d1: 9,
        pin_d2: 8,
        pin_d3: 10,
        pin_d4: 12,
        pin_d5: 18,
        pin_d6: 17,
        pin_d7: 16,
        pin_vsync: 6,
        pin_href: 7,
        pin_pclk: 13,
        pin_sda: 4,
        pin_scl: 5,
    }
}

fn frame(payload: Vec<u8>) -> FrameData {
    FrameData {
        payload,
        width: 1600,
        height: 1200,
        format: PixFormat::Jpeg,
        timestamp: Timeval { sec: 7, usec: 125000 },
    }
}

#[test]
fn init_produces_default_configuration() {
    let cam = Camera::new(CameraPeripheral::take(), pins(), 0, 0, PixFormat::Jpeg, 13).unwrap();
    assert_eq!(cam.config.xclk_freq_hz, 20000000);
    assert_eq!(cam.config.jpeg_quality, 12);
    assert_eq!(cam.config.fb_count, 2);
    assert_eq!(cam.config.pin_reset, -1);
    assert_eq!(cam.config.pin_pwdn, -1);
    assert_eq!(cam.config.pin_xclk, 15);
    assert_eq!(cam.config.frame_size, 13);
    assert_eq!(cam.sensor.status.quality, 12);
    assert_eq!(cam.sensor.status.framesize, 13);
    assert_eq!(cam.free_buffers, FB_COUNT);
    assert_eq!(cam.outstanding, 0);
}

#[test]
fn init_maps_power_down_pin() {
    let mut p = pins();
    p.pin_pwdn = Some(32);
    let cam = Camera::new(CameraPeripheral::take(), p, 0, 0, PixFormat::Jpeg, 13).unwrap();
    assert_eq!(cam.config.pin_pwdn, 32);
}

#[test]
fn init_rejects_duplicate_pins() {
    let mut p = pins();
    p.pin_sda = p.pin_scl;
    let r = Camera::new(CameraPeripheral::take(), p, 0, 0, PixFormat::Jpeg, 13);
    assert_eq!(r.err().map(|e| e.1), Some(CamError::HardwareInit));
}

#[test]
fn init_rejects_pin_out_of_range() {
    let mut p = pins();
    p.pin_href = 49;
    let r = Camera::new(CameraPeripheral::take(), p, 0, 0, PixFormat::Jpeg, 13);
    assert_eq!(r.err().map(|e| e.1), Some(CamError::HardwareInit));
}

#[test]
fn init_rejects_unsupported_frame_size() {
    let r = Camera::new(CameraPeripheral::take(), pins(), 0, 0, PixFormat::Jpeg, 14);
    assert_eq!(r.err().map(|e| e.1), Some(CamError::HardwareInit));
}

#[test]
fn capture_returns_delivered_frame() {
    let mut cam = Camera::new(CameraPeripheral::take(), pins(), 0, 0, PixFormat::Jpeg, 13).unwrap();
    cam.deliver_frame(frame(vec![0xFF, 0xD8, 0x01, 0xFF, 0xD9]));
    let fb = cam.get_framebuffer().unwrap();
    assert_eq!(fb.data().as_slice(), &[0xFF, 0xD8, 0x01, 0xFF, 0xD9]);
    assert_eq!(fb.width(), 1600);
    assert_eq!(fb.height(), 1200);
    assert_eq!(fb.format(), PixFormat::Jpeg);
    assert_eq!(fb.timestamp(), Timeval { sec: 7, usec: 125000 });
    assert_eq!(cam.outstanding, 1);
    cam.return_framebuffer(fb);
    assert_eq!(cam.outstanding, 0);
    assert_eq!(cam.free_buffers, FB_COUNT);
}

#[test]
fn capture_without_exposure_yields_none() {
    let mut cam = Camera::new(CameraPeripheral::take(), pins(), 0, 0, PixFormat::Jpeg, 13).unwrap();
    assert!(cam.get_framebuffer().is_none());
}

#[test]
fn exhausted_pool_stalls_until_a_handle_returns() {
    let mut cam = Camera::new(CameraPeripheral::take(), pins(), 0, 0, PixFormat::Jpeg, 13).unwrap();
    cam.deliver_frame(frame(vec![1]));
    cam.deliver_frame(frame(vec![2]));
    cam.deliver_frame(frame(vec![3]));
    let fb1 = cam.get_framebuffer().unwrap();
    let fb2 = cam.get_framebuffer().unwrap();
    // both pool buffers are lent out: the next capture stalls, it does not crash
    assert!(cam.get_framebuffer().is_none());
    cam.return_framebuffer(fb1);
    let fb3 = cam.get_framebuffer().unwrap();
    assert_eq!(fb3.data().as_slice(), &[3]);
    cam.return_framebuffer(fb2);
    cam.return_framebuffer(fb3);
}

#[test]
fn frames_come_out_in_exposure_order() {
    let mut cam = Camera::new(CameraPeripheral::take(), pins(), 0, 0, PixFormat::Jpeg, 13).unwrap();
    cam.deliver_frame(frame(vec![10]));
    cam.deliver_frame(frame(vec![20]));
    let fb = cam.get_framebuffer().unwrap();
    assert_eq!(fb.data().as_slice(), &[10]);
    cam.return_framebuffer(fb);
    let fb = cam.get_framebuffer().unwrap();
    assert_eq!(fb.data().as_slice(), &[20]);
    cam.return_framebuffer(fb);
}

#[test]
fn teardown_after_all_handles_returned() {
    let mut cam = Camera::new(CameraPeripheral::take(), pins(), 0, 0, PixFormat::Jpeg, 13).unwrap();
    cam.deliver_frame(frame(vec![5]));
    let fb = cam.get_framebuffer().unwrap();
    cam.return_framebuffer(fb);
    assert_eq!(cam.outstanding, 0);
    let _peripheral = cam.teardown();
}

#[test]
fn peripheral_token_cycles_through_init_and_teardown() {
    // the peripheral token is consumed by initialization and comes back
    // only from teardown: one token, at most one live device at a time
    let peripheral = CameraPeripheral::take();
    let cam = Camera::new(peripheral, pins(), 0, 0, PixFormat::Jpeg, 13).unwrap();
    let peripheral = cam.teardown();
    // a failed initialization hands the token back beside the error
    let mut bad = pins();
    bad.pin_sda = bad.pin_scl;
    let (peripheral, e) = Camera::new(peripheral, bad, 0, 0, PixFormat::Jpeg, 13).err().unwrap();
    assert_eq!(e, CamError::HardwareInit);
    // the reclaimed token initializes the next device
    let cam = Camera::new(peripheral, pins(), 0, 0, PixFormat::Jpeg, 13).unwrap();
    let _peripheral = cam.teardown();
}
