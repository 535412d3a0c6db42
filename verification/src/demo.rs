//! The demonstration sequence the program runs against the device: read
//! the time, write it back with one year value, switch update interrupts
//! on, collect five one-per-second interrupt events (rewriting the year
//! before the third), and switch update interrupts off.
//!
//! `run_demo` performs the whole sequence against the device model, so
//! the control flow is checked once and for all: which requests go out,
//! in which order, which event bytes come back, and what the device
//! holds afterwards — including exactly what has happened when the
//! event stream runs short.

use vstd::prelude::*;
use crate::device::{MockRtc, Request, RtcError};
use crate::time::RtcTime;

verus! {

/// The number of interrupt events the demonstration collects.
pub const DEMO_EVENTS: usize = 5;

/// The bytes of one interrupt-event payload.
pub const EVENT_BYTES: usize = 4;

/// The control requests the full demonstration issues, in order: read
/// the time, write it back with the first year, switch update interrupts
/// on, write the second year before the third event, and switch update
/// interrupts off.
pub open spec fn demo_requests(t0: RtcTime, year_a: i32, year_b: i32) -> Seq<Request> {
    seq![
        Request::ReadTime,
        Request::SetTime(RtcTime { tm_year: year_a, ..t0 }),
        Request::UieOn,
        Request::SetTime(RtcTime { tm_year: year_b, ..t0 }),
        Request::UieOff,
    ]
}

/// What a completed demonstration leaves behind: the five collected
/// events are the oldest twenty pending bytes in order, four apiece; the
/// device holds the second year and has interrupts off again; the log
/// grew by exactly the demonstration's five requests; and five reads of
/// four bytes each occurred.
pub open spec fn demo_ok_post(
    pre: MockRtc,
    post: MockRtc,
    events: Seq<Vec<u8>>,
    year_a: i32,
    year_b: i32,
) -> bool {
    &&& events.len() == DEMO_EVENTS
    &&& forall|k: int|
        0 <= k < DEMO_EVENTS ==> (#[trigger] events[k])@ == pre.pending@.subrange(4 * k, 4 * k + 4)
    &&& post.time == (RtcTime { tm_year: year_b, ..pre.time })
    &&& post.uie_enabled == false
    &&& post.pending@ == pre.pending@.skip(20)
    &&& post.requests@ == pre.requests@ + demo_requests(pre.time, year_a, year_b)
    &&& post.reads@ == pre.reads@ + Seq::new(DEMO_EVENTS as nat, |q: int| EVENT_BYTES)
}

/// What a demonstration cut short by a short read leaves behind, when
/// the device had `k = len / 4` whole events pending: `k` reads of four
/// bytes each occurred and consumed `4 k` bytes; interrupts are still
/// on; the year rewrite has happened exactly when the first two events
/// arrived; and the log holds the requests issued up to the failure.
pub open spec fn demo_err_post(pre: MockRtc, post: MockRtc, year_a: i32, year_b: i32) -> bool {
    let k = pre.pending@.len() as int / 4;
    &&& post.time == (if k >= 2 {
        RtcTime { tm_year: year_b, ..pre.time }
    } else {
        RtcTime { tm_year: year_a, ..pre.time }
    })
    &&& post.uie_enabled == true
    &&& post.pending@ == pre.pending@.skip(4 * k)
    &&& post.requests@ == pre.requests@ + (if k >= 2 {
        demo_requests(pre.time, year_a, year_b).take(4)
    } else {
        demo_requests(pre.time, year_a, year_b).take(3)
    })
    &&& post.reads@ == pre.reads@ + Seq::new(k as nat, |q: int| EVENT_BYTES)
}

/// Runs the demonstration: reads the time, writes it back with
/// `year_a`, switches update interrupts on, collects five four-byte
/// events (writing `year_b` before the third), and switches update
/// interrupts off. Succeeds exactly when twenty event bytes are
/// pending; a short event stream is reported as a failure at the first
/// read that cannot be filled.
pub fn run_demo(dev: &mut MockRtc, year_a: i32, year_b: i32) -> (r: Result<
    Vec<Vec<u8>>,
    RtcError,
>)
    ensures
        r is Ok <==> old(dev).pending@.len() >= 20,
        r matches Ok(evs) ==> demo_ok_post(*old(dev), *final(dev), evs@, year_a, year_b),
        r is Err ==> r == Result::<Vec<Vec<u8>>, RtcError>::Err(RtcError::ShortRead)
            && demo_err_post(*old(dev), *final(dev), year_a, year_b),
{
    let ghost reqs = demo_requests(old(dev).time, year_a, year_b);
    let t0 = dev.get_time();
    let ta = t0.with_year(year_a);
    dev.set_time(&ta);
    dev.update_interrupt_enable();
    proof {
        assert(dev.requests@ =~= old(dev).requests@ + reqs.take(3));
        assert(dev.pending@ =~= old(dev).pending@.skip(0));
        assert(dev.reads@ =~= old(dev).reads@ + Seq::new(0nat, |q: int| EVENT_BYTES));
    }
    let mut time = ta;
    let mut events: Vec<Vec<u8>> = Vec::new();
    let mut i: usize = 1;
    while i <= 5
        invariant
            1 <= i <= 6,
            t0 == old(dev).time,
            ta == (RtcTime { tm_year: year_a, ..t0 }),
            reqs == demo_requests(t0, year_a, year_b),
            time == (if i > 3 {
                RtcTime { tm_year: year_b, ..t0 }
            } else {
                ta
            }),
            events@.len() == i - 1,
            forall|k: int|
                0 <= k < i - 1 ==> (#[trigger] events@[k])@ == old(dev).pending@.subrange(
                    4 * k,
                    4 * k + 4,
                ),
            old(dev).pending@.len() >= 4 * (i - 1),
            dev.time == time,
            dev.uie_enabled == true,
            dev.pending@ == old(dev).pending@.skip(4 * (i - 1)),
            dev.requests@ == old(dev).requests@ + (if i > 3 {
                reqs.take(4)
            } else {
                reqs.take(3)
            }),
            dev.reads@ == old(dev).reads@ + Seq::new((i - 1) as nat, |q: int| EVENT_BYTES),
        decreases 6 - i,
    {
        if i == 3 {
            time = time.with_year(year_b);
            dev.set_time(&time);
            proof {
                assert(dev.requests@ =~= old(dev).requests@ + reqs.take(4));
            }
        }
        let mut buf: Vec<u8> = Vec::new();
        buf.push(0);
        buf.push(0);
        buf.push(0);
        buf.push(0);
        let ghost pre_read = *dev;
        match dev.read_data(&mut buf) {
            Ok(_) => {},
            Err(e) => {
                proof {
                    let n = old(dev).pending@.len() as int;
                    assert(n - 4 * (i - 1) < 4);
                    assert(n / 4 == i - 1);
                    assert(dev.pending@ =~= old(dev).pending@.skip(4 * ((i - 1) as int)));
                }
                return Err(e);
            },
        }
        proof {
            assert(buf@ =~= old(dev).pending@.subrange(4 * ((i - 1) as int), 4 * ((i - 1) as int)
                + 4));
            assert(dev.pending@ =~= old(dev).pending@.skip(4 * (i as int)));
            assert(dev.reads@ =~= old(dev).reads@ + Seq::new(i as nat, |q: int| EVENT_BYTES));
        }
        events.push(buf);
        i += 1;
    }
    dev.update_interrupt_disable();
    proof {
        assert(dev.requests@ =~= old(dev).requests@ + reqs);
    }
    Ok(events)
}

} // verus!
