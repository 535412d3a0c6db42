//! A model RTC device: the observable behaviour that the control
//! interface promises, with a log of every control request issued.
//!
//! `MockRtc` stands in for the kernel device node. It keeps the record
//! last written, whether update interrupts are switched on, and the
//! interrupt-event bytes not yet read; every control operation appends
//! the request it issues to `requests`. The relation of each operation's
//! pre- and post-state is a spec function of its own, so that laws about
//! sequences of operations can be stated and proved over them.

use vstd::prelude::*;
use crate::ioctl;
use crate::time::RtcTime;
use crate::time::RTC_TIME_BYTES;

verus! {

/// One control request, as the device sees it: the four fixed-code
/// operations, with the record carried by a time write.
#[derive(Debug, Copy, Clone, PartialEq, Eq, Structural)]
pub enum Request {
    /// Read the time record out of the device.
    ReadTime,
    /// Write the given time record into the device.
    SetTime(RtcTime),
    /// Switch periodic update interrupts on.
    UieOn,
    /// Switch periodic update interrupts off.
    UieOff,
}

/// The fixed numeric code under which the kernel knows each control
/// request.
pub open spec fn code_of(r: Request) -> int {
    match r {
        Request::ReadTime => ioctl::request_code(
            ioctl::DIR_READ,
            ioctl::RTC_MAGIC,
            ioctl::RD_TIME_NR,
            RTC_TIME_BYTES as u32,
        ),
        Request::SetTime(_) => ioctl::request_code(
            ioctl::DIR_WRITE,
            ioctl::RTC_MAGIC,
            ioctl::SET_TIME_NR,
            RTC_TIME_BYTES as u32,
        ),
        Request::UieOn => ioctl::request_code(ioctl::DIR_NONE, ioctl::RTC_MAGIC, ioctl::UIE_ON_NR, 0),
        Request::UieOff => ioctl::request_code(
            ioctl::DIR_NONE,
            ioctl::RTC_MAGIC,
            ioctl::UIE_OFF_NR,
            0,
        ),
    }
}

impl Request {
    /// The control-request code this request goes out under.
    pub fn code(&self) -> (c: u32)
        ensures
            c == code_of(*self),
    {
        match self {
            Request::ReadTime => ioctl::rd_time_code(),
            Request::SetTime(_) => ioctl::set_time_code(),
            Request::UieOn => ioctl::uie_on_code(),
            Request::UieOff => ioctl::uie_off_code(),
        }
    }
}

/// A failure the device reports to its caller.
#[derive(Debug, Copy, Clone, PartialEq, Eq, Structural)]
pub enum RtcError {
    /// A read asked for more bytes than the device had to deliver.
    ShortRead,
}

/// A mock RTC device node.
#[derive(Debug)]
pub struct MockRtc {
    /// The record the device holds: what a read returns.
    pub time: RtcTime,
    /// Whether periodic update interrupts are switched on.
    pub uie_enabled: bool,
    /// Interrupt-event bytes delivered but not yet read.
    pub pending: Vec<u8>,
    /// Every control request issued so far, oldest first.
    pub requests: Vec<Request>,
    /// The byte count of every completed read, oldest first.
    pub reads: Vec<usize>,
}

/// What opening the device yields: zeroed record, interrupts off,
/// nothing pending, nothing logged.
pub open spec fn open_post(post: MockRtc) -> bool {
    &&& post.time == (RtcTime {
        tm_sec: 0,
        tm_min: 0,
        tm_hour: 0,
        tm_mday: 0,
        tm_mon: 0,
        tm_year: 0,
        tm_wday: 0,
        tm_yday: 0,
        tm_isdst: 0,
    })
    &&& post.uie_enabled == false
    &&& post.pending@ == Seq::<u8>::empty()
    &&& post.requests@ == Seq::<Request>::empty()
    &&& post.reads@ == Seq::<usize>::empty()
}

/// What a "read time" does: it returns the record the device holds,
/// changes nothing, and logs exactly one `ReadTime` request.
pub open spec fn get_time_rel(pre: MockRtc, post: MockRtc, t: RtcTime) -> bool {
    &&& t == pre.time
    &&& post.time == pre.time
    &&& post.uie_enabled == pre.uie_enabled
    &&& post.pending@ == pre.pending@
    &&& post.requests@ == pre.requests@.push(Request::ReadTime)
    &&& post.reads@ == pre.reads@
}

/// What a "write time" does: the device holds the given record
/// afterwards, nothing else changes, and exactly one `SetTime` request
/// carrying that record is logged.
pub open spec fn set_time_rel(pre: MockRtc, t: RtcTime, post: MockRtc) -> bool {
    &&& post.time == t
    &&& post.uie_enabled == pre.uie_enabled
    &&& post.pending@ == pre.pending@
    &&& post.requests@ == pre.requests@.push(Request::SetTime(t))
    &&& post.reads@ == pre.reads@
}

/// What enabling update interrupts does: interrupts are on afterwards,
/// nothing else changes, and exactly one argument-free `UieOn` request is
/// logged.
pub open spec fn enable_rel(pre: MockRtc, post: MockRtc) -> bool {
    &&& post.time == pre.time
    &&& post.uie_enabled == true
    &&& post.pending@ == pre.pending@
    &&& post.requests@ == pre.requests@.push(Request::UieOn)
    &&& post.reads@ == pre.reads@
}

/// What disabling update interrupts does: interrupts are off afterwards,
/// nothing else changes, and exactly one argument-free `UieOff` request
/// is logged.
pub open spec fn disable_rel(pre: MockRtc, post: MockRtc) -> bool {
    &&& post.time == pre.time
    &&& post.uie_enabled == false
    &&& post.pending@ == pre.pending@
    &&& post.requests@ == pre.requests@.push(Request::UieOff)
    &&& post.reads@ == pre.reads@
}

/// What a blocking read does. A read of `n` bytes succeeds exactly when
/// `n` bytes are pending: it fills the buffer with the oldest pending
/// bytes and consumes them, and is no control request, so the log stays.
/// A short read fails and leaves buffer and device exactly as they were:
/// nothing is zero-padded.
pub open spec fn read_rel(
    pre: MockRtc,
    buf_pre: Seq<u8>,
    post: MockRtc,
    buf_post: Seq<u8>,
    r: Result<(), RtcError>,
) -> bool {
    &&& post.time == pre.time
    &&& post.uie_enabled == pre.uie_enabled
    &&& post.requests@ == pre.requests@
    &&& if buf_pre.len() <= pre.pending@.len() {
        &&& r == Result::<(), RtcError>::Ok(())
        &&& buf_post == pre.pending@.take(buf_pre.len() as int)
        &&& post.pending@ == pre.pending@.skip(buf_pre.len() as int)
        &&& post.reads@ == pre.reads@.push(buf_pre.len() as usize)
    } else {
        &&& r == Result::<(), RtcError>::Err(RtcError::ShortRead)
        &&& buf_post == buf_pre
        &&& post.pending@ == pre.pending@
        &&& post.reads@ == pre.reads@
    }
}

impl MockRtc {
    /// Opens a mock device node. The path plays the role of the device
    /// node's name and is not interpreted.
    pub fn open(_dev: &str) -> (d: MockRtc)
        ensures
            open_post(d),
    {
        MockRtc {
            time: RtcTime::zeroed(),
            uie_enabled: false,
            pending: Vec::new(),
            requests: Vec::new(),
            reads: Vec::new(),
        }
    }

    /// Issues the "read time" control request.
    pub fn get_time(&mut self) -> (t: RtcTime)
        ensures
            get_time_rel(*old(self), *final(self), t),
    {
        self.requests.push(Request::ReadTime);
        self.time
    }

    /// Issues the "write time" control request with the given record.
    pub fn set_time(&mut self, time: &RtcTime)
        ensures
            set_time_rel(*old(self), *time, *final(self)),
    {
        self.requests.push(Request::SetTime(*time));
        self.time = *time;
    }

    /// Issues the argument-free "update interrupt on" control request.
    pub fn update_interrupt_enable(&mut self)
        ensures
            enable_rel(*old(self), *final(self)),
    {
        self.requests.push(Request::UieOn);
        self.uie_enabled = true;
    }

    /// Issues the argument-free "update interrupt off" control request.
    pub fn update_interrupt_disable(&mut self)
        ensures
            disable_rel(*old(self), *final(self)),
    {
        self.requests.push(Request::UieOff);
        self.uie_enabled = false;
    }

    /// Queues the four bytes of one interrupt-event payload for a later
    /// read, as the kernel does on each update interrupt.
    pub fn deliver_event(&mut self, payload: &[u8; 4])
        ensures
            final(self).time == old(self).time,
            final(self).uie_enabled == old(self).uie_enabled,
            final(self).requests@ == old(self).requests@,
            final(self).reads@ == old(self).reads@,
            final(self).pending@ == old(self).pending@ + payload@,
    {
        self.pending.push(payload[0]);
        self.pending.push(payload[1]);
        self.pending.push(payload[2]);
        self.pending.push(payload[3]);
        proof {
            assert(self.pending@ =~= old(self).pending@ + payload@);
        }
    }

    /// Blocks until the buffer's worth of event bytes has been read, or
    /// fails on a short read. The buffer's length is the requested count.
    pub fn read_data(&mut self, data: &mut Vec<u8>) -> (r: Result<(), RtcError>)
        ensures
            read_rel(*old(self), old(data)@, *final(self), final(data)@, r),
    {
        let n = data.len();
        if n > self.pending.len() {
            return Err(RtcError::ShortRead);
        }
        let mut i: usize = 0;
        while i < n
            invariant
                i <= n,
                n == data@.len(),
                n <= self.pending@.len(),
                self == old(self),
                forall|j: int| 0 <= j < i ==> data@[j] == self.pending@[j],
                forall|j: int| i <= j < n ==> data@[j] == old(data)@[j],
            decreases n - i,
        {
            let b = self.pending[i];
            data.set(i, b);
            i += 1;
        }
        let mut rest: Vec<u8> = Vec::new();
        let mut j: usize = n;
        let plen = self.pending.len();
        while j < plen
            invariant
                n <= j <= plen,
                plen == self.pending@.len(),
                self == old(self),
                rest@ == self.pending@.subrange(n as int, j as int),
            decreases plen - j,
        {
            let b = self.pending[j];
            rest.push(b);
            proof {
                assert(rest@ =~= self.pending@.subrange(n as int, j as int + 1));
            }
            j += 1;
        }
        self.pending = rest;
        self.reads.push(n);
        proof {
            assert(data@ =~= old(self).pending@.take(n as int));
            assert(self.pending@ =~= old(self).pending@.skip(n as int));
        }
        Ok(())
    }
}

/// Writing a record and then reading it back returns exactly the record
/// written: the round trip over the device is the identity.
pub proof fn lemma_write_then_read(s0: MockRtc, s1: MockRtc, s2: MockRtc, t: RtcTime, r: RtcTime)
    requires
        set_time_rel(s0, t, s1),
        get_time_rel(s1, s2, r),
    ensures
        r == t,
        s2.requests@ == s0.requests@ + seq![Request::SetTime(t), Request::ReadTime],
{
    assert(s2.requests@ =~= s0.requests@ + seq![Request::SetTime(t), Request::ReadTime]);
}

/// Enabling and then disabling the update interrupt issues exactly one
/// enable request followed by exactly one disable request, both
/// argument-free, and nothing else.
pub proof fn lemma_enable_then_disable(s0: MockRtc, s1: MockRtc, s2: MockRtc)
    requires
        enable_rel(s0, s1),
        disable_rel(s1, s2),
    ensures
        s2.requests@ == s0.requests@ + seq![Request::UieOn, Request::UieOff],
        s2.requests@.len() == s0.requests@.len() + 2,
        s2.time == s0.time,
        s2.pending@ == s0.pending@,
        s2.reads@ == s0.reads@,
        s2.uie_enabled == false,
{
    assert(s2.requests@ =~= s0.requests@ + seq![Request::UieOn, Request::UieOff]);
}

} // verus!
