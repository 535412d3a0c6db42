//! The RTC time record and its fixed binary layout.
//!
//! The kernel's RTC control interface exchanges a record of nine signed
//! integer fields, four bytes each, little-endian, in declared order.
//! `encoding` is the specification of that layout; `to_bytes` and
//! `from_bytes` are the executable encoder and decoder, proved to realize
//! it and to round-trip.

use vstd::prelude::*;

verus! {

/// A point in time as the RTC device records it. The fields mirror the
/// kernel's record: seconds, minutes, hours, day of month, month, years
/// since 1900, weekday, day of year, and a daylight-saving flag. The
/// record carries no invariant of its own: out-of-range values are passed
/// through uninterpreted, and the device driver is the sole validator.
#[derive(Debug, Copy, Clone, PartialEq, Eq, Structural)]
pub struct RtcTime {
    pub tm_sec: i32,
    pub tm_min: i32,
    pub tm_hour: i32,
    pub tm_mday: i32,
    pub tm_mon: i32,
    pub tm_year: i32,
    pub tm_wday: i32,
    pub tm_yday: i32,
    pub tm_isdst: i32,
}

/// The number of fields in the record.
pub const RTC_TIME_FIELDS: usize = 9;

/// The number of bytes in the encoded record: nine fields of four bytes.
pub const RTC_TIME_BYTES: usize = 36;

/// The record's fields in their declared (and encoded) order.
pub open spec fn fields_of(t: RtcTime) -> Seq<i32> {
    seq![
        t.tm_sec,
        t.tm_min,
        t.tm_hour,
        t.tm_mday,
        t.tm_mon,
        t.tm_year,
        t.tm_wday,
        t.tm_yday,
        t.tm_isdst,
    ]
}

/// The four little-endian bytes of a signed 32-bit field.
pub open spec fn le32(x: i32) -> Seq<u8> {
    seq![
        ((x as u32) & 0xff) as u8,
        (((x as u32) >> 8) & 0xff) as u8,
        (((x as u32) >> 16) & 0xff) as u8,
        (((x as u32) >> 24) & 0xff) as u8,
    ]
}

/// The signed 32-bit field read back from four little-endian bytes.
pub open spec fn le32_decode(b: Seq<u8>) -> i32
    recommends
        b.len() == 4,
{
    ((b[0] as u32) | ((b[1] as u32) << 8) | ((b[2] as u32) << 16) | ((b[3] as u32) << 24)) as i32
}

/// The byte layout the control interface expects: the nine fields, four
/// little-endian bytes each, in declared order.
pub open spec fn encoding(t: RtcTime) -> Seq<u8> {
    le32(t.tm_sec) + le32(t.tm_min) + le32(t.tm_hour) + le32(t.tm_mday) + le32(t.tm_mon)
        + le32(t.tm_year) + le32(t.tm_wday) + le32(t.tm_yday) + le32(t.tm_isdst)
}

/// The record read back from a 36-byte encoding.
pub open spec fn decoding(b: Seq<u8>) -> RtcTime
    recommends
        b.len() == RTC_TIME_BYTES,
{
    RtcTime {
        tm_sec: le32_decode(b.subrange(0, 4)),
        tm_min: le32_decode(b.subrange(4, 8)),
        tm_hour: le32_decode(b.subrange(8, 12)),
        tm_mday: le32_decode(b.subrange(12, 16)),
        tm_mon: le32_decode(b.subrange(16, 20)),
        tm_year: le32_decode(b.subrange(20, 24)),
        tm_wday: le32_decode(b.subrange(24, 28)),
        tm_yday: le32_decode(b.subrange(28, 32)),
        tm_isdst: le32_decode(b.subrange(32, 36)),
    }
}

/// Appends the four little-endian bytes of one field.
fn encode_i32_le(x: i32, out: &mut Vec<u8>)
    ensures
        final(out)@ == old(out)@ + le32(x),
{
    let u = x as u32;
    out.push((u & 0xff) as u8);
    out.push(((u >> 8) & 0xff) as u8);
    out.push(((u >> 16) & 0xff) as u8);
    out.push(((u >> 24) & 0xff) as u8);
    proof {
        assert(out@ =~= old(out)@ + le32(x));
    }
}

/// Reads one field back from four little-endian bytes at the given offset.
fn decode_i32_le(b: &Vec<u8>, off: usize) -> (x: i32)
    requires
        off + 4 <= b@.len(),
    ensures
        x == le32_decode(b@.subrange(off as int, off as int + 4)),
{
    let _len = b.len();  // the length fits in usize, so the offsets below cannot overflow
    let b0 = b[off] as u32;
    let b1 = b[off + 1] as u32;
    let b2 = b[off + 2] as u32;
    let b3 = b[off + 3] as u32;
    let x = #[verifier::truncate] ((b0 | (b1 << 8u32) | (b2 << 16u32) | (b3 << 24u32)) as i32);
    proof {
        let s = b@.subrange(off as int, off as int + 4);
        assert(s[0] == b@[off as int]);
        assert(s[1] == b@[off as int + 1]);
        assert(s[2] == b@[off as int + 2]);
        assert(s[3] == b@[off as int + 3]);
    }
    x
}

/// A field survives encoding and decoding unchanged.
pub proof fn lemma_le32_roundtrip(x: i32)
    ensures
        le32_decode(le32(x)) == x,
{
    let s = le32(x);
    let b0 = s[0];
    let b1 = s[1];
    let b2 = s[2];
    let b3 = s[3];
    assert(((b0 as u32) | ((b1 as u32) << 8u32) | ((b2 as u32) << 16u32) | ((b3 as u32)
        << 24u32)) as i32 == x) by (bit_vector)
        requires
            b0 == ((x as u32) & 0xff) as u8,
            b1 == (((x as u32) >> 8) & 0xff) as u8,
            b2 == (((x as u32) >> 16) & 0xff) as u8,
            b3 == (((x as u32) >> 24) & 0xff) as u8,
    ;
}

/// Four bytes survive decoding and re-encoding unchanged.
pub proof fn lemma_le32_decode_roundtrip(b: Seq<u8>)
    requires
        b.len() == 4,
    ensures
        le32(le32_decode(b)) == b,
{
    let b0 = b[0];
    let b1 = b[1];
    let b2 = b[2];
    let b3 = b[3];
    let x = le32_decode(b);
    assert(((x as u32) & 0xff) as u8 == b0 && (((x as u32) >> 8) & 0xff) as u8 == b1 && (((
    x as u32) >> 16) & 0xff) as u8 == b2 && (((x as u32) >> 24) & 0xff) as u8 == b3)
        by (bit_vector)
        requires
            x == ((b0 as u32) | ((b1 as u32) << 8u32) | ((b2 as u32) << 16u32) | ((b3 as u32)
                << 24u32)) as i32,
    ;
    assert(le32(x) =~= b);
}

/// The layout law: the encoding is exactly 36 bytes, and field `k` of the
/// declared order occupies bytes `4k .. 4k + 4` as its little-endian image.
pub proof fn lemma_encoding_layout(t: RtcTime)
    ensures
        encoding(t).len() == RTC_TIME_BYTES,
        forall|k: int|
            0 <= k < RTC_TIME_FIELDS ==> #[trigger] encoding(t).subrange(4 * k, 4 * k + 4)
                == le32(fields_of(t)[k]),
{
    let e = encoding(t);
    assert forall|k: int| 0 <= k < RTC_TIME_FIELDS implies #[trigger] e.subrange(4 * k, 4 * k + 4)
        == le32(fields_of(t)[k]) by {
        if k == 0 {
            assert(e.subrange(0, 4) =~= le32(t.tm_sec));
        } else if k == 1 {
            assert(e.subrange(4, 8) =~= le32(t.tm_min));
        } else if k == 2 {
            assert(e.subrange(8, 12) =~= le32(t.tm_hour));
        } else if k == 3 {
            assert(e.subrange(12, 16) =~= le32(t.tm_mday));
        } else if k == 4 {
            assert(e.subrange(16, 20) =~= le32(t.tm_mon));
        } else if k == 5 {
            assert(e.subrange(20, 24) =~= le32(t.tm_year));
        } else if k == 6 {
            assert(e.subrange(24, 28) =~= le32(t.tm_wday));
        } else if k == 7 {
            assert(e.subrange(28, 32) =~= le32(t.tm_yday));
        } else {
            assert(e.subrange(32, 36) =~= le32(t.tm_isdst));
        }
        assert(e.subrange(4 * k, 4 * k + 4) == le32(fields_of(t)[k]));
    }
}

/// A record survives encoding and decoding unchanged.
pub proof fn lemma_record_roundtrip(t: RtcTime)
    ensures
        decoding(encoding(t)) == t,
{
    let e = encoding(t);
    assert(e.subrange(0, 4) =~= le32(t.tm_sec));
    assert(e.subrange(4, 8) =~= le32(t.tm_min));
    assert(e.subrange(8, 12) =~= le32(t.tm_hour));
    assert(e.subrange(12, 16) =~= le32(t.tm_mday));
    assert(e.subrange(16, 20) =~= le32(t.tm_mon));
    assert(e.subrange(20, 24) =~= le32(t.tm_year));
    assert(e.subrange(24, 28) =~= le32(t.tm_wday));
    assert(e.subrange(28, 32) =~= le32(t.tm_yday));
    assert(e.subrange(32, 36) =~= le32(t.tm_isdst));
    lemma_le32_roundtrip(t.tm_sec);
    lemma_le32_roundtrip(t.tm_min);
    lemma_le32_roundtrip(t.tm_hour);
    lemma_le32_roundtrip(t.tm_mday);
    lemma_le32_roundtrip(t.tm_mon);
    lemma_le32_roundtrip(t.tm_year);
    lemma_le32_roundtrip(t.tm_wday);
    lemma_le32_roundtrip(t.tm_yday);
    lemma_le32_roundtrip(t.tm_isdst);
}

/// A 36-byte buffer survives decoding and re-encoding unchanged.
pub proof fn lemma_bytes_roundtrip(b: Seq<u8>)
    requires
        b.len() == RTC_TIME_BYTES,
    ensures
        encoding(decoding(b)) == b,
{
    let t = decoding(b);
    lemma_le32_decode_roundtrip(b.subrange(0, 4));
    lemma_le32_decode_roundtrip(b.subrange(4, 8));
    lemma_le32_decode_roundtrip(b.subrange(8, 12));
    lemma_le32_decode_roundtrip(b.subrange(12, 16));
    lemma_le32_decode_roundtrip(b.subrange(16, 20));
    lemma_le32_decode_roundtrip(b.subrange(20, 24));
    lemma_le32_decode_roundtrip(b.subrange(24, 28));
    lemma_le32_decode_roundtrip(b.subrange(28, 32));
    lemma_le32_decode_roundtrip(b.subrange(32, 36));
    assert(encoding(t) =~= b);
}

impl RtcTime {
    /// The record laid out as the control interface expects it: nine
    /// fields, four little-endian bytes each, in declared order.
    pub fn to_bytes(&self) -> (r: Vec<u8>)
        ensures
            r@ == encoding(*self),
            r@.len() == RTC_TIME_BYTES,
    {
        let mut out: Vec<u8> = Vec::new();
        encode_i32_le(self.tm_sec, &mut out);
        encode_i32_le(self.tm_min, &mut out);
        encode_i32_le(self.tm_hour, &mut out);
        encode_i32_le(self.tm_mday, &mut out);
        encode_i32_le(self.tm_mon, &mut out);
        encode_i32_le(self.tm_year, &mut out);
        encode_i32_le(self.tm_wday, &mut out);
        encode_i32_le(self.tm_yday, &mut out);
        encode_i32_le(self.tm_isdst, &mut out);
        proof {
            assert(out@ =~= encoding(*self));
        }
        out
    }

    /// The record read back from a buffer; a buffer of any other length
    /// than the fixed 36 is rejected.
    pub fn from_bytes(b: &Vec<u8>) -> (r: Option<RtcTime>)
        ensures
            r is Some <==> b@.len() == RTC_TIME_BYTES,
            b@.len() == RTC_TIME_BYTES ==> r == Some(decoding(b@)),
    {
        if b.len() != RTC_TIME_BYTES {
            return None;
        }
        Some(
            RtcTime {
                tm_sec: decode_i32_le(b, 0),
                tm_min: decode_i32_le(b, 4),
                tm_hour: decode_i32_le(b, 8),
                tm_mday: decode_i32_le(b, 12),
                tm_mon: decode_i32_le(b, 16),
                tm_year: decode_i32_le(b, 20),
                tm_wday: decode_i32_le(b, 24),
                tm_yday: decode_i32_le(b, 28),
                tm_isdst: decode_i32_le(b, 32),
            },
        )
    }

    /// The all-zero record, as a caller creates it before a read fills it.
    pub fn zeroed() -> (t: RtcTime)
        ensures
            t == (RtcTime {
                tm_sec: 0,
                tm_min: 0,
                tm_hour: 0,
                tm_mday: 0,
                tm_mon: 0,
                tm_year: 0,
                tm_wday: 0,
                tm_yday: 0,
                tm_isdst: 0,
            }),
    {
        RtcTime {
            tm_sec: 0,
            tm_min: 0,
            tm_hour: 0,
            tm_mday: 0,
            tm_mon: 0,
            tm_year: 0,
            tm_wday: 0,
            tm_yday: 0,
            tm_isdst: 0,
        }
    }

    /// The same record with the year field replaced.
    pub fn with_year(&self, year: i32) -> (t: RtcTime)
        ensures
            t == (RtcTime { tm_year: year, ..*self }),
    {
        RtcTime { tm_year: year, ..*self }
    }
}

impl Default for RtcTime {
    fn default() -> (t: RtcTime)
        ensures
            t == (RtcTime {
                tm_sec: 0,
                tm_min: 0,
                tm_hour: 0,
                tm_mday: 0,
                tm_mon: 0,
                tm_year: 0,
                tm_wday: 0,
                tm_yday: 0,
                tm_isdst: 0,
            }),
    {
        RtcTime::zeroed()
    }
}

} // verus!
