use amt_ptp::constants::{PID_MAGIC_TRACKPAD2, PID_T2_7A};
use amt_ptp::device::lookup_config;
use amt_ptp::error::Error;
use amt_ptp::finger::Finger;
use amt_ptp::input::{build_ptp_report, parse_touch_frame, scan_time};

fn finger(raw_x: i32, raw_y: i32, touch_major: u8, touch_minor: u8, contact_id: u8) -> Finger {
    Finger { raw_x, raw_y, touch_major, touch_minor, size: 0, pressure: 0, contact_id, orientation: 0 }
}

#[test]
fn scan_time_from_counter() {
    // 10 MHz counter: 1 ms = 10000 ticks = 10 units of 100 µs
    assert_eq!(scan_time(10_500, 500, 10_000_000), 10);
    // 100 ms = 1_000_000 ticks = 1000 units
    assert_eq!(scan_time(1_000_001, 1, 10_000_000), 1000);
    // Negative delta counts as zero
    assert_eq!(scan_time(1, 5_000, 10_000_000), 0);
    // No frequency, or no previous counter value: zero
    assert_eq!(scan_time(123_456, 1, 0), 0);
    assert_eq!(scan_time(123_456, 1, -5), 0);
    assert_eq!(scan_time(10_000, 0, 10_000_000), 0);
    assert_eq!(scan_time(i64::MIN, 0, 1), 0);
    // Capped; the product saturates instead of overflowing
    assert_eq!(scan_time(i64::MAX, 1, 1), 0xFFFF);
    assert_eq!(scan_time(100_000_001, 1, 1000), 0xFFFF);
}

#[test]
fn report_from_fingers() {
    let config = lookup_config(PID_MAGIC_TRACKPAD2);
    let fingers = [finger(0, 0, 10, 5, 3), finger(-5000, 100, 0, 200, 7)];
    let r = build_ptp_report(&fingers, 2, true, &config, true, true, 42);
    assert_eq!(r.report_id, 5);
    assert_eq!(r.scan_time, 42);
    assert_eq!(r.contact_count, 2);
    assert_eq!(r.is_button_clicked, 1);
    assert_eq!(r.contacts[0].contact_id(), 3);
    assert_eq!(r.contacts[0].x(), 3678);
    assert_eq!(r.contacts[0].y(), 2479);
    assert!(r.contacts[0].confidence());
    assert!(r.contacts[0].tip_switch());
    assert_eq!(r.contacts[1].contact_id(), 7);
    assert_eq!(r.contacts[1].x(), 0);
    assert_eq!(r.contacts[1].y(), 2579);
    assert!(!r.contacts[1].confidence());
    assert!(!r.contacts[1].tip_switch());
    for i in 2..5 {
        assert_eq!(r.contacts[i].flags, 0);
        assert_eq!(r.contacts[i].contact_id(), 0);
    }
}

#[test]
fn report_switches_gate_touch_and_button() {
    let config = lookup_config(PID_MAGIC_TRACKPAD2);
    let fingers = [finger(0, 0, 10, 5, 3)];
    let r = build_ptp_report(&fingers, 1, true, &config, false, false, 0);
    assert_eq!(r.contact_count, 1);
    assert_eq!(r.is_button_clicked, 0);
    assert_eq!(r.contacts[0].flags, 0);
    assert_eq!(r.contacts[0].x(), 0);
    let r = build_ptp_report(&fingers, 1, false, &config, true, true, 0);
    assert_eq!(r.is_button_clicked, 0);
    assert_eq!(r.contacts[0].x(), 3678);
}

#[test]
fn frame_parsing() {
    let config = lookup_config(PID_MAGIC_TRACKPAD2);
    let mut raw = vec![0u8; 4 + 2 * 9];
    raw[1] = 1;
    raw[4 + 8] = 0x12;
    raw[4 + 9 + 8] = 0x04;
    let frame = parse_touch_frame(&raw, &config, 4).unwrap();
    assert_eq!(frame.count, 2);
    assert!(frame.button);
    assert_eq!(frame.fingers[0].contact_id, 2);
    assert_eq!(frame.fingers[0].orientation, 1);
    assert_eq!(frame.fingers[1].contact_id, 4);
    assert_eq!(frame.fingers[2], finger(0, 0, 0, 0, 0));
    let short = parse_touch_frame(&raw[..3], &config, 4);
    assert!(matches!(short, Err(Error::BufferTooShort { actual: 3, expected: 4 })));
    let t2 = lookup_config(PID_T2_7A);
    // The error gives the payload after the header: 2 (delta) + 31
    let bad = parse_touch_frame(&vec![0u8; 46 + 2 + 31], &t2, 46);
    assert!(matches!(bad, Err(Error::MalformedPayload { payload_len: 33, finger_size: 30 })));
}

#[test]
fn error_messages() {
    assert_eq!(
        Error::BufferTooShort { actual: 3, expected: 12 }.message(),
        "buffer too short: 3 bytes, need at least 12"
    );
    assert_eq!(
        Error::MalformedPayload { payload_len: 10, finger_size: 9 }.message(),
        "malformed payload: 10 bytes is not a multiple of finger size 9"
    );
    assert_eq!(
        Error::FingerIndexOutOfRange { index: 1234567890, count: 0 }.message(),
        "finger index 1234567890 out of range (count = 0)"
    );
}
