//! The control-request codes of the RTC device interface.
//!
//! The kernel encodes a control request as a 32-bit number built from a
//! direction (none, write, or read), the size of the transferred payload,
//! a subsystem letter, and a request ordinal. The RTC subsystem uses the
//! letter `p`; its update-interrupt toggles carry no payload, and its
//! time transfers carry the 36-byte record.

use vstd::prelude::*;
use crate::time::RTC_TIME_BYTES;

verus! {

/// No payload accompanies the request.
pub const DIR_NONE: u32 = 0;

/// The caller passes a payload to the driver.
pub const DIR_WRITE: u32 = 1;

/// The driver fills a payload for the caller.
pub const DIR_READ: u32 = 2;

/// The RTC subsystem's letter, `p`.
pub const RTC_MAGIC: u32 = 0x70;

/// The request ordinal that switches update interrupts on.
pub const UIE_ON_NR: u32 = 0x03;

/// The request ordinal that switches update interrupts off.
pub const UIE_OFF_NR: u32 = 0x04;

/// The request ordinal that reads the time record.
pub const RD_TIME_NR: u32 = 0x09;

/// The request ordinal that writes the time record.
pub const SET_TIME_NR: u32 = 0x0a;

/// A control-request code as the kernel composes it: the direction in the
/// top two bits, then fourteen bits of payload size, then the subsystem
/// letter, then the request ordinal.
pub open spec fn request_code(dir: u32, magic: u32, nr: u32, size: u32) -> int {
    dir * 0x4000_0000 + size * 0x1_0000 + magic * 0x100 + nr
}

/// Composes a control-request code.
pub fn compose_request(dir: u32, magic: u32, nr: u32, size: u32) -> (r: u32)
    requires
        dir <= 3,
        magic <= 0xff,
        nr <= 0xff,
        size < 0x4000,
    ensures
        r == request_code(dir, magic, nr, size),
{
    dir * 0x4000_0000 + size * 0x1_0000 + magic * 0x100 + nr
}

/// The code for "switch update interrupts on": no payload.
pub fn uie_on_code() -> (r: u32)
    ensures
        r == request_code(DIR_NONE, RTC_MAGIC, UIE_ON_NR, 0),
        r == 0x7003,
{
    compose_request(DIR_NONE, RTC_MAGIC, UIE_ON_NR, 0)
}

/// The code for "switch update interrupts off": no payload.
pub fn uie_off_code() -> (r: u32)
    ensures
        r == request_code(DIR_NONE, RTC_MAGIC, UIE_OFF_NR, 0),
        r == 0x7004,
{
    compose_request(DIR_NONE, RTC_MAGIC, UIE_OFF_NR, 0)
}

/// The code for "read the time record": the driver fills a 36-byte record.
pub fn rd_time_code() -> (r: u32)
    ensures
        r == request_code(DIR_READ, RTC_MAGIC, RD_TIME_NR, RTC_TIME_BYTES as u32),
        r == 0x8024_7009,
{
    compose_request(DIR_READ, RTC_MAGIC, RD_TIME_NR, RTC_TIME_BYTES as u32)
}

/// The code for "write the time record": the caller passes a 36-byte record.
pub fn set_time_code() -> (r: u32)
    ensures
        r == request_code(DIR_WRITE, RTC_MAGIC, SET_TIME_NR, RTC_TIME_BYTES as u32),
        r == 0x4024_700a,
{
    compose_request(DIR_WRITE, RTC_MAGIC, SET_TIME_NR, RTC_TIME_BYTES as u32)
}

} // verus!
