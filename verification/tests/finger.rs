use amt_ptp::constants::{BUTTON_TYPE4, PID_MAGIC_TRACKPAD2, PID_T2_7A, PTP_MAX_CONTACT_POINTS};
use amt_ptp::device::lookup_config;
use amt_ptp::error::Error;
use amt_ptp::finger::{parse_legacy_finger, parse_report, parse_type5_finger, Finger};

fn zero_finger() -> Finger {
    Finger {
        raw_x: 0, raw_y: 0,
        touch_major: 0, touch_minor: 0,
        size: 0, pressure: 0,
        contact_id: 0, orientation: 0,
    }
}

#[test]
fn type5_coordinate_extraction_origin() {
    // All zeros should give (0, 0) raw coordinates
    let data = [0u8; 9];
    let f = parse_type5_finger(&data);
    assert_eq!(f.raw_x, 0);
    assert_eq!(f.raw_y, 0);
    assert_eq!(f.contact_id, 0);
    assert_eq!(f.orientation, 0);
}

#[test]
fn type5_coordinate_extraction_positive_x() {
    // X = 100 (0x064): set in bytes 0-1 as LE u16
    let mut data = [0u8; 9];
    let x_val: u16 = 100;
    data[0] = (x_val & 0xff) as u8;
    data[1] = ((x_val >> 8) & 0xff) as u8;
    let f = parse_type5_finger(&data);
    assert_eq!(f.raw_x, 100);
}

#[test]
fn type5_coordinate_extraction_negative_x() {
    // X = -100: encode as 13-bit signed in LE u16
    let val: i16 = -100;
    let encoded = (val as u16) & 0x1fff;
    let mut data = [0u8; 9];
    data[0] = (encoded & 0xff) as u8;
    data[1] = ((encoded >> 8) & 0xff) as u8;
    let f = parse_type5_finger(&data);
    assert_eq!(f.raw_x, -100);
}

#[test]
fn type5_contact_id_and_orientation() {
    let mut data = [0u8; 9];
    data[8] = 0x53; // ID = 3, Orientation = 5
    let f = parse_type5_finger(&data);
    assert_eq!(f.contact_id, 3);
    assert_eq!(f.orientation, 5);
}

#[test]
fn type5_touch_fields() {
    let mut data = [0u8; 9];
    data[4] = 42;  // touch_major
    data[5] = 30;  // touch_minor
    data[6] = 15;  // size
    data[7] = 200; // pressure
    let f = parse_type5_finger(&data);
    assert_eq!(f.touch_major, 42);
    assert_eq!(f.touch_minor, 30);
    assert_eq!(f.size, 15);
    assert_eq!(f.pressure, 200);
}

#[test]
fn tip_switch_nonzero_touch() {
    let f = Finger {
        raw_x: 0, raw_y: 0,
        touch_major: 10, touch_minor: 5,
        size: 0, pressure: 50,
        contact_id: 0, orientation: 0,
    };
    assert!(f.is_tip_switch());
    assert!(f.is_confident()); // 5 << 1 = 10 < 345
}

#[test]
fn tip_switch_zero_touch() {
    let f = Finger {
        raw_x: 0, raw_y: 0,
        touch_major: 0, touch_minor: 0,
        size: 0, pressure: 0,
        contact_id: 0, orientation: 0,
    };
    assert!(!f.is_tip_switch());
}

#[test]
fn transform_mt2_coordinates() {
    let config = lookup_config(PID_MAGIC_TRACKPAD2);
    let f = Finger {
        raw_x: 0, raw_y: 0,
        touch_major: 10, touch_minor: 5,
        size: 0, pressure: 50,
        contact_id: 0, orientation: 0,
    };
    let (x, y) = f.transform_to_ptp(&config);
    // 0 - (-3678) = 3678
    assert_eq!(x, 3678);
    // 0 - (-2479) = 2479
    assert_eq!(y, 2479);
}

#[test]
fn transform_clamps_negative() {
    let config = lookup_config(PID_MAGIC_TRACKPAD2);
    let f = Finger {
        raw_x: -5000, raw_y: -5000,
        touch_major: 10, touch_minor: 5,
        size: 0, pressure: 50,
        contact_id: 0, orientation: 0,
    };
    let (x, y) = f.transform_to_ptp(&config);
    // -5000 - (-3678) = -1322 → clamped to 0
    assert_eq!(x, 0);
    assert_eq!(y, 0);
}

#[test]
fn type4_parse_report_with_delta() {
    // TYPE4: header=46, delta=2, finger_size=30
    let config = lookup_config(PID_T2_7A);
    let header = config.trackpad_type.header_size_usb();
    let delta = config.trackpad_type.finger_delta();
    let fsize = config.trackpad_type.finger_size();
    assert_eq!(header, 46);
    assert_eq!(delta, 2);
    assert_eq!(fsize, 30);

    // 46 + 2 + 2*30 = 108 bytes
    let mut report = [0u8; 108];

    // Set button byte (offset 31 for TYPE4) to pressed
    report[BUTTON_TYPE4] = 0x01;

    let mut fingers = [zero_finger(); PTP_MAX_CONTACT_POINTS];

    let result = parse_report(&report, &config, header, &mut fingers);
    assert!(result.is_ok(), "TYPE4 parse_report should succeed, got: {result:?}");
    let (count, button) = result.unwrap();
    assert_eq!(count, 2);
    assert!(button);
}

#[test]
fn type5_parse_report_zero_delta() {
    // TYPE5: header=12 (USB), delta=0, finger_size=9
    let config = lookup_config(PID_MAGIC_TRACKPAD2);
    let header = config.trackpad_type.header_size_usb();
    assert_eq!(config.trackpad_type.finger_delta(), 0);

    // 12 + 3*9 = 39 bytes
    let report = [0u8; 39];

    let mut fingers = [zero_finger(); PTP_MAX_CONTACT_POINTS];

    let (count, _) = parse_report(&report, &config, header, &mut fingers).unwrap();
    assert_eq!(count, 3);
}

#[test]
fn type5_y_is_negated_13_bit_field() {
    // Y field (bits 13-25) = 1 → raw_y = -1
    let mut data = [0u8; 9];
    data[1] = 0x20; // bit 13
    assert_eq!(parse_type5_finger(&data).raw_y, -1);
    assert_eq!(parse_type5_finger(&data).raw_x, 0);
    // Y field = 0x1fff (-1 as 13-bit) → raw_y = 1
    let v: u32 = 0x1fff << 13;
    let b = v.to_le_bytes();
    let mut data = [0u8; 9];
    data[..4].copy_from_slice(&b);
    assert_eq!(parse_type5_finger(&data).raw_y, 1);
    // Y field = 0x1000 (-4096) → raw_y = 4096
    let v: u32 = 0x1000 << 13;
    let b = v.to_le_bytes();
    let mut data = [0u8; 9];
    data[..4].copy_from_slice(&b);
    assert_eq!(parse_type5_finger(&data).raw_y, 4096);
}

#[test]
fn type5_x_extremes() {
    let mut data = [0u8; 9];
    data[0] = 0xff;
    data[1] = 0x0f; // 0x0fff = 4095
    assert_eq!(parse_type5_finger(&data).raw_x, 4095);
    data[1] = 0x10; // 0x10ff → -4096 + 0xff
    data[0] = 0x00;
    assert_eq!(parse_type5_finger(&data).raw_x, -4096);
}

#[test]
fn confidence_threshold_is_172() {
    let mut f = zero_finger();
    f.touch_minor = 172;
    assert!(f.is_confident());
    f.touch_minor = 173;
    assert!(!f.is_confident());
}

#[test]
fn confidence_checks_both_axes() {
    let mut f = zero_finger();
    f.touch_major = 172;
    assert!(f.is_confident());
    f.touch_major = 173;
    assert!(!f.is_confident());
    f.touch_major = 255;
    f.touch_minor = 0;
    assert!(!f.is_confident());
}

#[test]
fn legacy_transform_inverts_y_once() {
    let config = lookup_config(PID_T2_7A);
    let y_at = |abs_y: i16| {
        let mut data = [0u8; 30];
        data[4..6].copy_from_slice(&abs_y.to_le_bytes());
        parse_legacy_finger(&data, &config).transform_to_ptp(&config).1
    };
    // y = y.max - raw, clamped at zero
    assert_eq!(y_at(-170), 7855);
    assert_eq!(y_at(-170) as i32, config.ptp_y_logical_max() as i32);
    assert_eq!(y_at(0), 7685);
    assert_eq!(y_at(7685), 0);
    assert_eq!(y_at(8000), 0);
}

#[test]
fn legacy_finger_fields() {
    let config = lookup_config(PID_T2_7A);
    let mut data = [0u8; 30];
    data[2..4].copy_from_slice(&(-200i16).to_le_bytes()); // abs_x
    data[4..6].copy_from_slice(&300u16.to_le_bytes()); // abs_y
    data[16..18].copy_from_slice(&600u16.to_le_bytes()); // touch_major
    data[18..20].copy_from_slice(&101u16.to_le_bytes()); // touch_minor
    data[24..26].copy_from_slice(&1000u16.to_le_bytes()); // pressure
    let f = parse_legacy_finger(&data, &config);
    assert_eq!(f.raw_x, -200);
    assert_eq!(f.raw_y, 7685 - 300);
    assert_eq!(f.touch_major, (300 % 256) as u8);
    assert_eq!(f.touch_minor, 50);
    assert_eq!(f.pressure, (500 % 256) as u8);
    assert_eq!(f.contact_id, 0);
    assert_eq!(f.size, 0);
}

#[test]
fn parse_report_too_short() {
    let config = lookup_config(PID_MAGIC_TRACKPAD2);
    let report = [0u8; 5];
    let mut fingers = [zero_finger(); PTP_MAX_CONTACT_POINTS];
    let r = parse_report(&report, &config, 12, &mut fingers);
    assert_eq!(r, Err(Error::BufferTooShort { actual: 5, expected: 12 }));
}

#[test]
fn parse_report_malformed_payload() {
    let config = lookup_config(PID_MAGIC_TRACKPAD2);
    let report = [0u8; 12 + 10];
    let mut fingers = [zero_finger(); PTP_MAX_CONTACT_POINTS];
    let r = parse_report(&report, &config, 12, &mut fingers);
    assert_eq!(r, Err(Error::MalformedPayload { payload_len: 10, finger_size: 9 }));
}

#[test]
fn malformed_payload_reports_length_after_header() {
    let config = lookup_config(PID_T2_7A);
    let report = [0u8; 50];
    let mut fingers = [zero_finger(); PTP_MAX_CONTACT_POINTS];
    let r = parse_report(&report, &config, 46, &mut fingers);
    assert_eq!(r, Err(Error::MalformedPayload { payload_len: 4, finger_size: 30 }));
}

#[test]
fn parse_report_caps_count_at_buffer_and_assigns_legacy_ids() {
    let config = lookup_config(PID_T2_7A);
    // 7 fingers of TYPE4 data, 5-finger buffer
    let mut report = vec![0u8; 46 + 2 + 7 * 30];
    for i in 0..7 {
        let off = 48 + i * 30;
        report[off + 2..off + 4].copy_from_slice(&((i as i16) * 10).to_le_bytes());
    }
    let mut fingers = [zero_finger(); PTP_MAX_CONTACT_POINTS];
    let (count, button) = parse_report(&report, &config, 46, &mut fingers).unwrap();
    assert_eq!(count, 5);
    assert!(!button);
    for i in 0..5 {
        assert_eq!(fingers[i].contact_id, i as u8);
        assert_eq!(fingers[i].raw_x, (i as i32) * 10);
    }
}

#[test]
fn parse_report_button_past_end_is_released() {
    let config = lookup_config(PID_MAGIC_TRACKPAD2);
    // BT header (4) with no fingers: the button byte (offset 1) is present
    let report = [0u8, 1, 0, 0];
    let mut fingers = [zero_finger(); PTP_MAX_CONTACT_POINTS];
    let (count, button) = parse_report(&report, &config, 4, &mut fingers).unwrap();
    assert_eq!(count, 0);
    assert!(button);
    // Zero-length report with zero header: no button byte
    let (count, button) = parse_report(&[], &config, 0, &mut fingers).unwrap();
    assert_eq!(count, 0);
    assert!(!button);
}
