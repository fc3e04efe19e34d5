//! The streaming session controller: it exposes capture, streaming,
//! control and status to many concurrent requesters while the device
//! allows only one operation at a time.
//!
//! Exclusive access is the exclusive borrow of the [`Camera`]: the
//! hosting layer wraps the device in a mutual-exclusion lock and holds it
//! exactly for the duration of one call into this module. Every operation
//! here is a self-contained transaction: it captures and copies under the
//! borrow and returns owned bytes, so the caller performs its (slow)
//! network write after the borrow ends and short control and status
//! requests are never starved behind a slow peer. Every frame handle an
//! operation produces is returned before the operation ends, on the error
//! paths too.

use vstd::prelude::*;

use crate::device::Camera;
use crate::error::CamError;
use crate::sensor::{framesize_ok, level_ok, quality_ok, SensorStatus};
use crate::stream::{encode_part, part_for};

verus! {

/// The control parameters a control request may name.
#[derive(Clone, Copy, Debug, PartialEq, Eq, Structural)]
pub enum ControlVar {
    Framesize,
    Quality,
    Contrast,
    Brightness,
    Saturation,
}

/// The wire name of a control parameter, as bytes.
pub open spec fn var_name(v: ControlVar) -> Seq<u8> {
    match v {
        ControlVar::Framesize => seq![
            'f' as u8, 'r' as u8, 'a' as u8, 'm' as u8, 'e' as u8, 's' as u8, 'i' as u8, 'z' as u8,
            'e' as u8,
        ],
        ControlVar::Quality => seq![
            'q' as u8, 'u' as u8, 'a' as u8, 'l' as u8, 'i' as u8, 't' as u8, 'y' as u8,
        ],
        ControlVar::Contrast => seq![
            'c' as u8, 'o' as u8, 'n' as u8, 't' as u8, 'r' as u8, 'a' as u8, 's' as u8, 't' as u8,
        ],
        ControlVar::Brightness => seq![
            'b' as u8, 'r' as u8, 'i' as u8, 'g' as u8, 'h' as u8, 't' as u8, 'n' as u8, 'e' as u8,
            's' as u8, 's' as u8,
        ],
        ControlVar::Saturation => seq![
            's' as u8, 'a' as u8, 't' as u8, 'u' as u8, 'r' as u8, 'a' as u8, 't' as u8, 'i' as u8,
            'o' as u8, 'n' as u8,
        ],
    }
}

/// Which control parameter a request's name selects, if any.
pub open spec fn spec_parse_var(name: Seq<u8>) -> Option<ControlVar> {
    if name == var_name(ControlVar::Framesize) {
        Some(ControlVar::Framesize)
    } else if name == var_name(ControlVar::Quality) {
        Some(ControlVar::Quality)
    } else if name == var_name(ControlVar::Contrast) {
        Some(ControlVar::Contrast)
    } else if name == var_name(ControlVar::Brightness) {
        Some(ControlVar::Brightness)
    } else if name == var_name(ControlVar::Saturation) {
        Some(ControlVar::Saturation)
    } else {
        None
    }
}

/// Whether the driver accepts `val` for the parameter `v`.
pub open spec fn control_ok(v: ControlVar, val: i32) -> bool {
    match v {
        ControlVar::Framesize => 0 <= val && framesize_ok(val as u32),
        ControlVar::Quality => quality_ok(val),
        ControlVar::Contrast => level_ok(val),
        ControlVar::Brightness => level_ok(val),
        ControlVar::Saturation => level_ok(val),
    }
}

/// The status snapshot after a successful set of `v` to `val`.
pub open spec fn status_after_control(st: SensorStatus, v: ControlVar, val: i32) -> SensorStatus {
    match v {
        ControlVar::Framesize => SensorStatus { framesize: val as u32, ..st },
        ControlVar::Quality => SensorStatus { quality: val as u8, ..st },
        ControlVar::Contrast => SensorStatus { contrast: val as i8, ..st },
        ControlVar::Brightness => SensorStatus { brightness: val as i8, ..st },
        ControlVar::Saturation => SensorStatus { saturation: val as i8, ..st },
    }
}

/// Byte-sequence equality.
pub fn bytes_eq(a: &[u8], b: &[u8]) -> (r: bool)
    ensures
        r <==> a@ == b@,
{
    if a.len() != b.len() {
        return false;
    }
    let n = a.len();
    let mut i: usize = 0;
    while i < n
        invariant
            i <= n,
            n == a@.len() == b@.len(),
            forall|k: int| 0 <= k < i ==> a@[k] == b@[k],
        decreases n - i,
    {
        if a[i] != b[i] {
            return false;
        }
        i += 1;
    }
    proof {
        assert(a@ =~= b@);
    }
    true
}

/// Builds the wire name of a control parameter.
pub fn var_name_vec(v: ControlVar) -> (r: Vec<u8>)
    ensures
        r@ == var_name(v),
{
    let r: Vec<u8> = match v {
        ControlVar::Framesize => vec![
            'f' as u8, 'r' as u8, 'a' as u8, 'm' as u8, 'e' as u8, 's' as u8, 'i' as u8, 'z' as u8,
            'e' as u8,
        ],
        ControlVar::Quality => vec![
            'q' as u8, 'u' as u8, 'a' as u8, 'l' as u8, 'i' as u8, 't' as u8, 'y' as u8,
        ],
        ControlVar::Contrast => vec![
            'c' as u8, 'o' as u8, 'n' as u8, 't' as u8, 'r' as u8, 'a' as u8, 's' as u8, 't' as u8,
        ],
        ControlVar::Brightness => vec![
            'b' as u8, 'r' as u8, 'i' as u8, 'g' as u8, 'h' as u8, 't' as u8, 'n' as u8, 'e' as u8,
            's' as u8, 's' as u8,
        ],
        ControlVar::Saturation => vec![
            's' as u8, 'a' as u8, 't' as u8, 'u' as u8, 'r' as u8, 'a' as u8, 't' as u8, 'i' as u8,
            'o' as u8, 'n' as u8,
        ],
    };
    proof {
        assert(r@ =~= var_name(v));
    }
    r
}

/// Parses a control request's parameter name. An unrecognized name is an
/// input-validation failure, decided before the device is touched.
pub fn parse_control_var(name: &[u8]) -> (r: Option<ControlVar>)
    ensures
        r == spec_parse_var(name@),
{
    let framesize = var_name_vec(ControlVar::Framesize);
    if bytes_eq(name, framesize.as_slice()) {
        return Some(ControlVar::Framesize);
    }
    let quality = var_name_vec(ControlVar::Quality);
    if bytes_eq(name, quality.as_slice()) {
        return Some(ControlVar::Quality);
    }
    let contrast = var_name_vec(ControlVar::Contrast);
    if bytes_eq(name, contrast.as_slice()) {
        return Some(ControlVar::Contrast);
    }
    let brightness = var_name_vec(ControlVar::Brightness);
    if bytes_eq(name, brightness.as_slice()) {
        return Some(ControlVar::Brightness);
    }
    let saturation = var_name_vec(ControlVar::Saturation);
    if bytes_eq(name, saturation.as_slice()) {
        return Some(ControlVar::Saturation);
    }
    None
}

/// Copies a byte payload into an owned buffer.
fn copy_payload(src: &Vec<u8>) -> (r: Vec<u8>)
    ensures
        r@ == src@,
{
    let mut r: Vec<u8> = Vec::new();
    let n = src.len();
    let mut i: usize = 0;
    while i < n
        invariant
            i <= n,
            n == src@.len(),
            r@ == src@.take(i as int),
        decreases n - i,
    {
        r.push(src[i]);
        proof {
            assert(src@.take(i as int).push(src@[i as int]) =~= src@.take(i + 1 as int));
        }
        i += 1;
    }
    proof {
        assert(src@.take(n as int) =~= src@);
    }
    r
}

/// The state relation of one session transaction (or one hardware
/// exposure), as seen between two acquisitions of exclusive access.
/// Every public operation of this module refines it.
pub open spec fn session_step(pre: Camera, post: Camera) -> bool {
    ||| capture_transition(pre, post)
    ||| control_transition(pre, post)
    ||| deliver_transition(pre, post)
    ||| post == pre
}

/// A capture-and-release transaction: one pending frame is consumed and
/// every buffer comes back to the pool; nothing else changes.
pub open spec fn capture_transition(pre: Camera, post: Camera) -> bool {
    if pre.frame_ready() {
        &&& post.pending@ == pre.pending@.drop_first()
        &&& post.free_buffers == pre.free_buffers
        &&& post.outstanding == pre.outstanding
        &&& post.sensor == pre.sensor
        &&& post.config == pre.config
    } else {
        post == pre
    }
}

/// A control transaction: at most the status snapshot changes, through a
/// successful set of one parameter.
pub open spec fn control_transition(pre: Camera, post: Camera) -> bool {
    exists|v: ControlVar, val: i32|
        control_ok(v, val) && post == (Camera {
            sensor: (crate::sensor::CameraSensor {
                status: status_after_control(pre.sensor.status, v, val),
                ..pre.sensor
            }),
            ..pre
        })
}

/// A hardware exposure: one frame joins the pending queue.
pub open spec fn deliver_transition(pre: Camera, post: Camera) -> bool {
    exists|f: crate::device::FrameData|
        post == (Camera { pending: post.pending, ..pre }) && post.pending@ == pre.pending@.push(f)
}

/// Single-shot capture: under exclusive access, capture one frame, copy
/// its payload into an owned buffer, and return the frame buffer to the
/// pool before the access ends. When the driver yields no buffer the
/// transaction reports unavailability — a server-side failure signal,
/// never a crash and never an empty-body success. The capture is
/// attempted exactly once: unavailability is returned to the requester
/// rather than retried, as an unbounded retry would hold the device
/// hostage.
pub fn handle_capture(cam: &mut Camera) -> (r: Result<Vec<u8>, CamError>)
    requires
        old(cam).wf(),
    ensures
        final(cam).wf(),
        final(cam).outstanding == old(cam).outstanding,
        session_step(*old(cam), *final(cam)),
        old(cam).frame_ready() ==> (r matches Ok(body) && body@ == old(cam).pending@[0].payload@
            && capture_transition(*old(cam), *final(cam))),
        !old(cam).frame_ready() ==> r == Err::<Vec<u8>, CamError>(CamError::CaptureUnavailable)
            && *final(cam) == *old(cam),
{
    match cam.get_framebuffer() {
        Some(fb) => {
            let body = copy_payload(fb.data());
            cam.return_framebuffer(fb);
            Ok(body)
        },
        None => Err(CamError::CaptureUnavailable),
    }
}

/// One step of a continuous stream: under exclusive access, capture one
/// frame, frame its payload as the next multipart chunk, and return the
/// frame buffer; the returned bytes are owned, so the caller writes and
/// flushes them to its peer after the access ends and no other requester
/// waits behind the network transfer.
pub fn stream_step(cam: &mut Camera) -> (r: Result<Vec<u8>, CamError>)
    requires
        old(cam).wf(),
    ensures
        final(cam).wf(),
        final(cam).outstanding == old(cam).outstanding,
        session_step(*old(cam), *final(cam)),
        old(cam).frame_ready() ==> (r matches Ok(chunk) && chunk@ == part_for(
            old(cam).pending@[0].payload@,
        ) && capture_transition(*old(cam), *final(cam))),
        !old(cam).frame_ready() ==> r == Err::<Vec<u8>, CamError>(CamError::CaptureUnavailable)
            && *final(cam) == *old(cam),
{
    match cam.get_framebuffer() {
        Some(fb) => {
            let chunk = encode_part(fb.data());
            cam.return_framebuffer(fb);
            Ok(chunk)
        },
        None => Err(CamError::CaptureUnavailable),
    }
}

/// The streaming session's only exit decision: the session continues
/// exactly as long as the transport accepts its writes; a failed write is
/// a transport failure that ends the session (its lock and frame are
/// already released when this is decided), never a device fault.
pub fn after_part_write(write_ok: bool) -> (r: Result<(), CamError>)
    ensures
        write_ok ==> r == Ok::<(), CamError>(()),
        !write_ok ==> r == Err::<(), CamError>(CamError::Transport),
{
    if write_ok {
        Ok(())
    } else {
        Err(CamError::Transport)
    }
}

/// Control update: under exclusive access, dispatch a `(name, value)`
/// request to the matching sensor setter. An unrecognized name is
/// rejected as input validation before the device is touched; a value the
/// driver rejects is a sensor-control failure; a successful set changes
/// exactly the named parameter.
pub fn handle_control(cam: &mut Camera, name: &[u8], val: i32) -> (r: Result<(), CamError>)
    requires
        old(cam).wf(),
    ensures
        final(cam).wf(),
        final(cam).outstanding == old(cam).outstanding,
        session_step(*old(cam), *final(cam)),
        match spec_parse_var(name@) {
            None => r == Err::<(), CamError>(CamError::InputValidation) && *final(cam) == *old(cam),
            Some(v) => if control_ok(v, val) {
                r == Ok::<(), CamError>(()) && *final(cam) == (Camera {
                    sensor: (crate::sensor::CameraSensor {
                        status: status_after_control(old(cam).sensor.status, v, val),
                        ..old(cam).sensor
                    }),
                    ..*old(cam)
                })
            } else {
                r == Err::<(), CamError>(CamError::SensorControl) && *final(cam) == *old(cam)
            },
        },
{
    let parsed = parse_control_var(name);
    match parsed {
        None => Err(CamError::InputValidation),
        Some(ControlVar::Framesize) => {
            if val < 0 {
                Err(CamError::SensorControl)
            } else {
                let r = cam.sensor.set_framesize(val as u32);
                proof {
                    if control_ok(ControlVar::Framesize, val) {
                        assert(control_transition(*old(cam), *final(cam)));
                    }
                }
                r
            }
        },
        Some(ControlVar::Quality) => {
            let r = cam.sensor.set_quality(val);
            proof {
                if control_ok(ControlVar::Quality, val) {
                    assert(control_transition(*old(cam), *final(cam)));
                }
            }
            r
        },
        Some(ControlVar::Contrast) => {
            let r = cam.sensor.set_contrast(val);
            proof {
                if control_ok(ControlVar::Contrast, val) {
                    assert(control_transition(*old(cam), *final(cam)));
                }
            }
            r
        },
        Some(ControlVar::Brightness) => {
            let r = cam.sensor.set_brightness(val);
            proof {
                if control_ok(ControlVar::Brightness, val) {
                    assert(control_transition(*old(cam), *final(cam)));
                }
            }
            r
        },
        Some(ControlVar::Saturation) => {
            let r = cam.sensor.set_saturation(val);
            proof {
                if control_ok(ControlVar::Saturation, val) {
                    assert(control_transition(*old(cam), *final(cam)));
                }
            }
            r
        },
    }
}

/// Status query: under exclusive access, a point-in-time copy of the full
/// sensor snapshot. The copy is taken while no setter can run, so it can
/// never mix fields from two different writes.
pub fn handle_status(cam: &Camera) -> (r: SensorStatus)
    ensures
        r == cam.sensor.status,
{
    *cam.sensor.status()
}

/// No session transaction leaves a frame handle outstanding: along any
/// trace of session steps from a device with no handle out, every state
/// has no handle out — each frame handle produced was returned exactly
/// once, before the next operation began, and no two handles are ever
/// outstanding at once.
/// No session step changes how many frame handles are out.
pub proof fn lemma_step_outstanding(pre: Camera, post: Camera)
    requires
        session_step(pre, post),
    ensures
        post.outstanding == pre.outstanding,
{
    if capture_transition(pre, post) {
    } else if control_transition(pre, post) {
        let (v, val) = choose|v: ControlVar, val: i32|
            control_ok(v, val) && post == (Camera {
                sensor: (crate::sensor::CameraSensor {
                    status: status_after_control(pre.sensor.status, v, val),
                    ..pre.sensor
                }),
                ..pre
            });
    } else if deliver_transition(pre, post) {
        let f = choose|f: crate::device::FrameData|
            post == (Camera { pending: post.pending, ..pre }) && post.pending@ == pre.pending@.push(
                f,
            );
    } else {
    }
}

pub proof fn lemma_trace_quiescent(trace: Seq<Camera>)
    requires
        trace.len() > 0,
        trace[0].outstanding == 0,
        forall|i: int| 0 <= i < trace.len() - 1 ==> session_step(#[trigger] trace[i], trace[i + 1]),
    ensures
        forall|i: int| 0 <= i < trace.len() ==> #[trigger] trace[i].outstanding == 0,
    decreases trace.len(),
{
    if trace.len() > 1 {
        let prefix = trace.drop_last();
        assert forall|i: int|
            0 <= i < prefix.len() - 1 implies session_step(#[trigger] prefix[i], prefix[i + 1]) by {
            assert(prefix[i] == trace[i]);
            assert(prefix[i + 1] == trace[i + 1]);
            assert(session_step(trace[i], trace[i + 1]));
        }
        lemma_trace_quiescent(prefix);
        let j = trace.len() - 2;
        assert(session_step(trace[j], trace[j + 1]));
        assert(prefix[j].outstanding == 0);
        lemma_step_outstanding(trace[j], trace[j + 1]);
        assert forall|i: int| 0 <= i < trace.len() implies #[trigger] trace[i].outstanding == 0 by {
            if i < trace.len() - 1 {
                assert(prefix[i] == trace[i]);
                assert(prefix[i].outstanding == 0);
            } else {
                assert(trace[i] == trace[j + 1]);
            }
        }
    }
}

/// Teardown is safe after any session history: a device that started with
/// no handle outstanding and was used only through session transactions
/// ends with no handle outstanding, which is exactly what
/// [`Camera::teardown`] demands — a frame handle can never be alive when
/// the device goes down.
pub proof fn lemma_teardown_safe(trace: Seq<Camera>)
    requires
        trace.len() > 0,
        trace[0].outstanding == 0,
        forall|i: int| 0 <= i < trace.len() - 1 ==> session_step(#[trigger] trace[i], trace[i + 1]),
    ensures
        trace.last().outstanding == 0,
{
    lemma_trace_quiescent(trace);
}

/// What the last successfully set brightness along a history of events
/// is: `events[i]` is `Some(v)` for a completed successful set to `v`,
/// `None` for any other session operation.
pub open spec fn last_set_brightness(init: i8, events: Seq<Option<i32>>) -> i8
    decreases events.len(),
{
    if events.len() == 0 {
        init
    } else {
        match events.last() {
            Some(v) => v as i8,
            None => last_set_brightness(init, events.drop_last()),
        }
    }
}

/// Under the exclusive-access lock, operations serialize into a trace; a
/// status query at any point returns the snapshot of its state. This law
/// says the brightness that snapshot reports is exactly the last value a
/// completed successful brightness set wrote — or the initial value if
/// none completed — never a torn or partial value.
pub proof fn lemma_status_reflects_last_set(trace: Seq<Camera>, events: Seq<Option<i32>>)
    requires
        trace.len() == events.len() + 1,
        forall|i: int|
            0 <= i < events.len() ==> match events[i] {
                Some(v) => level_ok(v) && (#[trigger] trace[i + 1]).sensor.status.brightness == v as i8,
                None => trace[i + 1].sensor.status.brightness == trace[i].sensor.status.brightness,
            },
    ensures
        trace.last().sensor.status.brightness == last_set_brightness(
            trace[0].sensor.status.brightness,
            events,
        ),
    decreases events.len(),
{
    if events.len() > 0 {
        let j = events.len() - 1;
        assert(match events[j] {
            Some(v) => level_ok(v) && trace[j + 1].sensor.status.brightness == v as i8,
            None => trace[j + 1].sensor.status.brightness == trace[j].sensor.status.brightness,
        });
        assert(trace[j + 1] == trace.last());
        match events.last() {
            Some(v) => {
                assert(events[j] == Some(v));
            },
            None => {
                let tp = trace.drop_last();
                let ep = events.drop_last();
                assert forall|i: int|
                    0 <= i < ep.len() implies (match ep[i] {
                    Some(v) => level_ok(v) && (#[trigger] tp[i + 1]).sensor.status.brightness
                        == v as i8,
                    None => tp[i + 1].sensor.status.brightness == tp[i].sensor.status.brightness,
                }) by {
                    assert(tp[i + 1] == trace[i + 1]);
                    assert(tp[i] == trace[i]);
                    assert(match events[i] {
                        Some(v) => level_ok(v) && trace[i + 1].sensor.status.brightness == v as i8,
                        None => trace[i + 1].sensor.status.brightness
                            == trace[i].sensor.status.brightness,
                    });
                }
                lemma_status_reflects_last_set(tp, ep);
                assert(tp.last() == trace[j]);
                assert(tp[0] == trace[0]);
            },
        }
    }
}

} // verus!
