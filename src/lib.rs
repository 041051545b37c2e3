//! Bridges a 2.4 GHz XN297L-family receiver to USB gamepad reports: the
//! transceiver's register framing, power-up sequence and receive poll, the
//! decoding of two-byte control frames into joystick reports, and the
//! per-player report store of the poll loop.
use vstd::prelude::*;

pub mod decode;
pub mod led;
pub mod players;
pub mod report;
pub mod xn297;

verus! {

} // verus!
