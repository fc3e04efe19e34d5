//! A verified model of a single shared camera peripheral and of the
//! multipart streaming protocol that serves its frames.
//!
//! The `device` module owns the lifetime of the one camera device and
//! hands out frame buffers with enforced release semantics; `sensor`
//! models the live sensor control surface; `stream` states the byte-exact
//! multipart framing and proves it invertible; `session` coordinates
//! capture, streaming, control and status transactions against the one
//! device, one at a time.

pub mod device;
pub mod error;
pub mod sensor;
pub mod session;
pub mod stream;
