//! Verified model of a real-time clock (RTC) character-device control
//! interface: the fixed-layout time record and its byte encoding, the
//! control-request codes, and a mock device for exercising the protocol.
//!
//! The actual device calls (ioctl and blocking reads against the kernel's
//! RTC node) are I/O and live outside the library; everything here is the
//! logic those calls carry: what the record looks like on the wire, which
//! request codes the operations issue, and how a well-behaved device must
//! respond.

pub mod demo;
pub mod device;
pub mod ioctl;
pub mod time;
