use rtc_ctl::demo::run_demo;
use rtc_ctl::device::{MockRtc, Request, RtcError};
use rtc_ctl::ioctl::{compose_request, rd_time_code, set_time_code, uie_off_code, uie_on_code};
use rtc_ctl::time::RtcTime;

fn sample_time() -> RtcTime {
    RtcTime {
        tm_sec: 1,
        tm_min: 2,
        tm_hour: 3,
        tm_mday: 4,
        tm_mon: 5,
        tm_year: 6,
        tm_wday: 7,
        tm_yday: 8,
        tm_isdst: 9,
    }
}

#[test]
fn record_layout_is_nine_le32_fields_in_order() {
    let bytes = sample_time().to_bytes();
    let expected: Vec<u8> = vec![
        1, 0, 0, 0, 2, 0, 0, 0, 3, 0, 0, 0, 4, 0, 0, 0, 5, 0, 0, 0, 6, 0, 0, 0, 7, 0, 0, 0, 8, 0,
        0, 0, 9, 0, 0, 0,
    ];
    assert_eq!(bytes, expected);
}

#[test]
fn record_layout_negative_and_wide_fields() {
    let t = RtcTime {
        tm_sec: -1,
        tm_min: 0x0102_0304,
        tm_hour: 0,
        tm_mday: 0,
        tm_mon: 0,
        tm_year: 130,
        tm_wday: 0,
        tm_yday: 0,
        tm_isdst: -1,
    };
    let bytes = t.to_bytes();
    assert_eq!(bytes.len(), 36);
    assert_eq!(&bytes[0..4], &[0xff, 0xff, 0xff, 0xff]);
    assert_eq!(&bytes[4..8], &[0x04, 0x03, 0x02, 0x01]);
    assert_eq!(&bytes[20..24], &[130, 0, 0, 0]);
    assert_eq!(&bytes[32..36], &[0xff, 0xff, 0xff, 0xff]);
}

#[test]
fn record_round_trips_through_bytes() {
    let t = sample_time();
    assert_eq!(RtcTime::from_bytes(&t.to_bytes()), Some(t));
    let neg = RtcTime {
        tm_sec: i32::MIN,
        tm_min: i32::MAX,
        tm_hour: -70,
        tm_mday: 31,
        tm_mon: 11,
        tm_year: 70,
        tm_wday: 6,
        tm_yday: 365,
        tm_isdst: -1,
    };
    assert_eq!(RtcTime::from_bytes(&neg.to_bytes()), Some(neg));
}

#[test]
fn from_bytes_rejects_wrong_lengths() {
    assert_eq!(RtcTime::from_bytes(&Vec::new()), None);
    assert_eq!(RtcTime::from_bytes(&vec![0u8; 35]), None);
    assert_eq!(RtcTime::from_bytes(&vec![0u8; 37]), None);
    assert!(RtcTime::from_bytes(&vec![0u8; 36]).is_some());
}

#[test]
fn default_record_is_zeroed() {
    let t = RtcTime::default();
    assert_eq!(t, RtcTime::zeroed());
    assert_eq!(t.tm_year, 0);
    assert_eq!(t.to_bytes(), vec![0u8; 36]);
}

#[test]
fn control_request_codes_match_the_kernel_interface() {
    assert_eq!(uie_on_code(), 0x7003);
    assert_eq!(uie_off_code(), 0x7004);
    assert_eq!(rd_time_code(), 0x8024_7009);
    assert_eq!(set_time_code(), 0x4024_700a);
}

#[test]
fn compose_request_builds_the_read_time_code() {
    assert_eq!(compose_request(2, 0x70, 0x09, 36), 0x8024_7009);
    assert_eq!(compose_request(0, 0x70, 0x03, 0), 0x7003);
}

#[test]
fn each_request_carries_its_kernel_code() {
    assert_eq!(Request::ReadTime.code(), 0x8024_7009);
    assert_eq!(Request::SetTime(sample_time()).code(), 0x4024_700a);
    assert_eq!(Request::UieOn.code(), 0x7003);
    assert_eq!(Request::UieOff.code(), 0x7004);
}

#[test]
fn write_then_read_returns_the_written_record() {
    let mut dev = MockRtc::open("/dev/rtc0");
    let t = sample_time();
    dev.set_time(&t);
    let back = dev.get_time();
    assert_eq!(back, t);
    assert_eq!(dev.requests, vec![Request::SetTime(t), Request::ReadTime]);
}

#[test]
fn enable_then_disable_issues_one_of_each_in_order() {
    let mut dev = MockRtc::open("/dev/rtc0");
    dev.update_interrupt_enable();
    assert!(dev.uie_enabled);
    dev.update_interrupt_disable();
    assert!(!dev.uie_enabled);
    assert_eq!(dev.requests, vec![Request::UieOn, Request::UieOff]);
}

#[test]
fn read_returns_events_oldest_first() {
    let mut dev = MockRtc::open("/dev/rtc0");
    dev.deliver_event(&[1, 0, 0, 64]);
    dev.deliver_event(&[2, 0, 0, 64]);
    let mut buf = vec![0u8; 4];
    assert_eq!(dev.read_data(&mut buf), Ok(()));
    assert_eq!(buf, vec![1, 0, 0, 64]);
    assert_eq!(dev.read_data(&mut buf), Ok(()));
    assert_eq!(buf, vec![2, 0, 0, 64]);
    assert_eq!(dev.reads, vec![4, 4]);
}

#[test]
fn short_read_fails_and_pads_nothing() {
    let mut dev = MockRtc::open("/dev/rtc0");
    dev.deliver_event(&[5, 6, 7, 8]);
    let mut buf = vec![9u8; 5];
    assert_eq!(dev.read_data(&mut buf), Err(RtcError::ShortRead));
    assert_eq!(buf, vec![9u8; 5], "a failed read must not touch the buffer");
    assert_eq!(dev.pending, vec![5, 6, 7, 8], "a failed read must consume nothing");
    assert_eq!(dev.reads, Vec::<usize>::new());
}

#[test]
fn read_from_empty_device_fails() {
    let mut dev = MockRtc::open("/dev/rtc0");
    let mut buf = vec![0u8; 4];
    assert_eq!(dev.read_data(&mut buf), Err(RtcError::ShortRead));
    assert_eq!(buf, vec![0u8; 4]);
}

#[test]
fn end_to_end_mock_scenario() {
    let mut dev = MockRtc::open("/dev/rtc0");
    let t = dev.get_time().with_year(70);
    dev.set_time(&t);
    let back = dev.get_time();
    assert_eq!(back.tm_year, 70);

    dev.update_interrupt_enable();
    for k in 0..5u8 {
        dev.deliver_event(&[k, 0, 0, 0]);
    }
    for _ in 0..5 {
        let mut buf = vec![0u8; 4];
        assert_eq!(dev.read_data(&mut buf), Ok(()));
    }
    assert_eq!(dev.reads, vec![4, 4, 4, 4, 4], "exactly five reads of four bytes each");
    dev.update_interrupt_disable();

    let toggles: Vec<&Request> = dev
        .requests
        .iter()
        .filter(|r| matches!(r, Request::UieOn | Request::UieOff))
        .collect();
    assert_eq!(toggles, vec![&Request::UieOn, &Request::UieOff]);
    assert_eq!(
        dev.requests,
        vec![
            Request::ReadTime,
            Request::SetTime(t),
            Request::ReadTime,
            Request::UieOn,
            Request::UieOff,
        ]
    );
}

#[test]
fn demo_collects_five_events_and_restores_quiet_state() {
    let mut dev = MockRtc::open("/dev/rtc0");
    for k in 0..5u8 {
        dev.deliver_event(&[k, 10 + k, 0, 0]);
    }
    let events = run_demo(&mut dev, 70, 130).expect("twenty event bytes were pending");
    assert_eq!(events.len(), 5);
    for (k, ev) in events.iter().enumerate() {
        assert_eq!(ev, &vec![k as u8, 10 + k as u8, 0, 0]);
    }
    assert_eq!(dev.time.tm_year, 130);
    assert!(!dev.uie_enabled);
    assert_eq!(dev.pending, Vec::<u8>::new());
    let t70 = RtcTime::zeroed().with_year(70);
    let t130 = RtcTime::zeroed().with_year(130);
    assert_eq!(
        dev.requests,
        vec![
            Request::ReadTime,
            Request::SetTime(t70),
            Request::UieOn,
            Request::SetTime(t130),
            Request::UieOff,
        ]
    );
    assert_eq!(dev.reads, vec![4, 4, 4, 4, 4]);
}

#[test]
fn demo_reports_a_short_event_stream() {
    let mut dev = MockRtc::open("/dev/rtc0");
    dev.deliver_event(&[1, 0, 0, 0]);
    dev.deliver_event(&[2, 0, 0, 0]);
    let r = run_demo(&mut dev, 70, 130);
    assert_eq!(r, Err(RtcError::ShortRead));
    assert!(dev.uie_enabled, "the failure happens before interrupts are switched off");
    assert_eq!(dev.time.tm_year, 130, "the third iteration rewrites the year before it reads");
    assert_eq!(dev.reads, vec![4, 4]);
    let t70 = RtcTime::zeroed().with_year(70);
    let t130 = RtcTime::zeroed().with_year(130);
    assert_eq!(
        dev.requests,
        vec![
            Request::ReadTime,
            Request::SetTime(t70),
            Request::UieOn,
            Request::SetTime(t130),
        ]
    );
}
