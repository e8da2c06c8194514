//! Pulse-per-second (PPS) devices as the Linux kernel offers them: the
//! binary layout of the records exchanged with the driver, the four control
//! requests, and the decoding of the driver's replies.

pub mod bytes;
pub mod pps;
pub mod control;
pub mod device;
