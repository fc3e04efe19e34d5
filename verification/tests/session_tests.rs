use espcam::device::{Camera, CameraPeripheral, FrameData, PinAssignment, Timeval};
use espcam::error::CamError;
use espcam::sensor::PixFormat;
use espcam::session::{
    after_part_write, handle_capture, handle_control, handle_status, parse_control_var,
    stream_step, ControlVar,
};
use espcam::stream::{demux_stream, encode_part};

fn camera() -> Camera {
    let pins = PinAssignment {
        pin_pwdn: None,
        pin_xclk: 15,
        pin_d0: 11,
        pin_d1: 9,
        pin_d2: 8,
        pin_d3: 10,
        pin_d4: 12,
        pin_d5: 18,
        pin_d6: 17,
        pin_d7: 16,
        pin_vsync: 6,
        pin_href: 7,
        pin_pclk: 13,
        pin_sda: 4,
        pin_scl: 5,
    };
    Camera::new(CameraPeripheral::take(), pins, 0, 0, PixFormat::Jpeg, 13).unwrap()
}

fn frame(payload: Vec<u8>) -> FrameData {
    FrameData {
        payload,
        width: 1600,
        height: 1200,
        format: PixFormat::Jpeg,
        timestamp: Timeval { sec: 0, usec: 0 },
    }
}

#[test]
fn control_names_parse_to_their_parameters() {
    assert_eq!(parse_control_var(b"framesize"), Some(ControlVar::Framesize));
    assert_eq!(parse_control_var(b"quality"), Some(ControlVar::Quality));
    assert_eq!(parse_control_var(b"contrast"), Some(ControlVar::Contrast));
    assert_eq!(parse_control_var(b"brightness"), Some(ControlVar::Brightness));
    assert_eq!(parse_control_var(b"saturation"), Some(ControlVar::Saturation));
    assert_eq!(parse_control_var(b"gamma"), None);
    assert_eq!(parse_control_var(b""), None);
    assert_eq!(parse_control_var(b"brightnes"), None);
}

#[test]
fn status_enumerates_default_configuration_then_reflects_control() {
    // initialize, query status, set brightness to 2, query again
    let mut cam = camera();
    let st = handle_status(&cam);
    assert_eq!(st.quality, 12);
    assert_eq!(st.framesize, 13);
    assert_eq!(st.brightness, 0);
    assert_eq!(handle_control(&mut cam, b"brightness", 2), Ok(()));
    let st = handle_status(&cam);
    assert_eq!(st.brightness, 2);
    assert_eq!(st.quality, 12);
}

#[test]
fn unknown_control_name_is_input_validation_not_driver_error() {
    let mut cam = camera();
    let before = handle_status(&cam);
    assert_eq!(
        handle_control(&mut cam, b"gamma", 1),
        Err(CamError::InputValidation)
    );
    assert_eq!(handle_status(&cam), before);
}

#[test]
fn rejected_control_value_is_a_sensor_error() {
    let mut cam = camera();
    let before = handle_status(&cam);
    assert_eq!(
        handle_control(&mut cam, b"brightness", 7),
        Err(CamError::SensorControl)
    );
    assert_eq!(
        handle_control(&mut cam, b"framesize", -1),
        Err(CamError::SensorControl)
    );
    assert_eq!(handle_status(&cam), before);
}

#[test]
fn each_control_parameter_reaches_its_field() {
    let mut cam = camera();
    assert_eq!(handle_control(&mut cam, b"framesize", 9), Ok(()));
    assert_eq!(handle_control(&mut cam, b"quality", 20), Ok(()));
    assert_eq!(handle_control(&mut cam, b"contrast", -1), Ok(()));
    assert_eq!(handle_control(&mut cam, b"brightness", 1), Ok(()));
    assert_eq!(handle_control(&mut cam, b"saturation", 2), Ok(()));
    let st = handle_status(&cam);
    assert_eq!(st.framesize, 9);
    assert_eq!(st.quality, 20);
    assert_eq!(st.contrast, -1);
    assert_eq!(st.brightness, 1);
    assert_eq!(st.saturation, 2);
}

#[test]
fn capture_returns_the_frame_payload() {
    let mut cam = camera();
    cam.deliver_frame(frame(vec![0xFF, 0xD8, 7, 7, 0xFF, 0xD9]));
    let body = handle_capture(&mut cam).unwrap();
    assert_eq!(body, vec![0xFF, 0xD8, 7, 7, 0xFF, 0xD9]);
    assert_eq!(cam.outstanding, 0);
}

#[test]
fn capture_unavailable_is_reported_not_a_crash() {
    // the driver yields no buffer: the outcome is the transient
    // unavailability error, never an empty-body success
    let mut cam = camera();
    assert_eq!(handle_capture(&mut cam), Err(CamError::CaptureUnavailable));
    assert_eq!(stream_step(&mut cam).err(), Some(CamError::CaptureUnavailable));
}

#[test]
fn stream_steps_emit_demuxable_parts() {
    let mut cam = camera();
    let payloads: Vec<Vec<u8>> = vec![vec![1, 2, 3], vec![4, 5], vec![6; 300]];
    for p in &payloads {
        cam.deliver_frame(frame(p.clone()));
    }
    let mut stream: Vec<u8> = Vec::new();
    for _ in 0..payloads.len() {
        let chunk = stream_step(&mut cam).unwrap();
        // the exclusive window is already over: the write happens here,
        // against the owned copy
        stream.extend_from_slice(&chunk);
        assert_eq!(cam.outstanding, 0);
    }
    let parts = demux_stream(&stream).unwrap();
    assert_eq!(parts, payloads);
}

#[test]
fn stream_chunk_equals_encoded_part() {
    let mut cam = camera();
    cam.deliver_frame(frame(vec![9, 8, 7]));
    let chunk = stream_step(&mut cam).unwrap();
    assert_eq!(chunk, encode_part(&vec![9, 8, 7]));
}

#[test]
fn capture_proceeds_between_stream_windows() {
    // a single capture issued while a stream session is between its
    // capture-and-copy windows is served next, in arrival order
    let mut cam = camera();
    cam.deliver_frame(frame(vec![1]));
    cam.deliver_frame(frame(vec![2]));
    cam.deliver_frame(frame(vec![3]));
    let chunk = stream_step(&mut cam).unwrap();
    assert_eq!(chunk, encode_part(&vec![1]));
    // the stream's window has closed; the waiting capture acquires next
    let body = handle_capture(&mut cam).unwrap();
    assert_eq!(body, vec![2]);
    // the stream resumes with the following frame
    let chunk = stream_step(&mut cam).unwrap();
    assert_eq!(chunk, encode_part(&vec![3]));
}

#[test]
fn status_reflects_some_completed_set_under_interleaving() {
    // serialized interleaving of brightness sets and status queries:
    // every query reports the last value a completed set wrote
    let mut cam = camera();
    assert_eq!(handle_control(&mut cam, b"brightness", 1), Ok(()));
    assert_eq!(handle_status(&cam).brightness, 1);
    cam.deliver_frame(frame(vec![5]));
    let _ = handle_capture(&mut cam).unwrap();
    assert_eq!(handle_status(&cam).brightness, 1);
    assert_eq!(handle_control(&mut cam, b"brightness", -2), Ok(()));
    // a rejected set completes without writing
    assert_eq!(
        handle_control(&mut cam, b"brightness", 9),
        Err(CamError::SensorControl)
    );
    assert_eq!(handle_status(&cam).brightness, -2);
}

#[test]
fn write_failure_ends_the_session_as_transport_error() {
    assert_eq!(after_part_write(true), Ok(()));
    assert_eq!(after_part_write(false), Err(CamError::Transport));
}

#[test]
fn session_operations_keep_teardown_legal() {
    let mut cam = camera();
    cam.deliver_frame(frame(vec![1]));
    cam.deliver_frame(frame(vec![2]));
    let _ = stream_step(&mut cam).unwrap();
    let _ = handle_capture(&mut cam).unwrap();
    let _ = handle_control(&mut cam, b"quality", 30);
    let _ = handle_status(&cam);
    assert_eq!(cam.outstanding, 0);
    let _peripheral = cam.teardown();
}
