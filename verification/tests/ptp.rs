use std::mem;

use amt_ptp::constants::{REPORTID_DEVICE_CAPS, REPORTID_FUNC_SWITCH, REPORTID_MULTITOUCH};
use amt_ptp::ptp::{
    PtpContact, PtpDeviceCapsReport, PtpHqaCertificationReport, PtpInputModeReport, PtpReport,
    PtpSelectiveReportingReport, PtpUserModeAppConfReport,
};

#[test]
fn ptp_contact_size() {
    // 1 (flags) + 4 (contact_id) + 2 (x) + 2 (y) = 9
    assert_eq!(mem::size_of::<PtpContact>(), 9);
}

#[test]
fn ptp_report_size() {
    // 1 (report_id) + 5 × 9 (contacts) + 2 (scan_time) + 1 (count) + 1 (button) = 50
    assert_eq!(mem::size_of::<PtpReport>(), 50);
}

#[test]
fn ptp_report_as_bytes_length() {
    let report = PtpReport::new();
    assert_eq!(report.as_bytes().len(), 50);
    assert_eq!(report.as_bytes()[0], REPORTID_MULTITOUCH);
}

#[test]
fn ptp_contact_flags() {
    let c = PtpContact::new(42, 100, 200, true, true);
    assert!(c.confidence());
    assert!(c.tip_switch());
    let id = c.contact_id();
    let x = c.x();
    let y = c.y();
    assert_eq!(id, 42);
    assert_eq!(x, 100);
    assert_eq!(y, 200);
}

#[test]
fn ptp_contact_no_flags() {
    let c = PtpContact::new(0, 0, 0, false, false);
    assert!(!c.confidence());
    assert!(!c.tip_switch());
}

#[test]
fn device_caps_report_size() {
    assert_eq!(mem::size_of::<PtpDeviceCapsReport>(), 3);
}

#[test]
fn hqa_report_size() {
    // 1 + 256 = 257
    assert_eq!(mem::size_of::<PtpHqaCertificationReport>(), 257);
}

#[test]
fn selective_reporting_report_size() {
    // 1 (report_id) + 1 (switches) = 2
    assert_eq!(mem::size_of::<PtpSelectiveReportingReport>(), 2);
}

#[test]
fn selective_reporting_flags() {
    let r = PtpSelectiveReportingReport {
        report_id: REPORTID_FUNC_SWITCH,
        switches: 0x03, // both button and surface
    };
    assert!(r.button_report_on());
    assert!(r.surface_report_on());
}

#[test]
fn input_mode_report_size() {
    assert_eq!(mem::size_of::<PtpInputModeReport>(), 2);
}

#[test]
fn umapp_conf_report_size() {
    assert_eq!(mem::size_of::<PtpUserModeAppConfReport>(), 4);
}

#[test]
fn contact_bytes_are_little_endian() {
    let c = PtpContact::new(0x0403_0201, 0x0605, 0x0807, true, false);
    assert_eq!(c.flags, 1);
    assert_eq!(c.contact_id, [1, 2, 3, 4]);
    assert_eq!(c.x, [5, 6]);
    assert_eq!(c.y, [7, 8]);
    let t = PtpContact::new(7, 1, 2, false, true);
    assert_eq!(t.flags, 2);
    assert!(!t.confidence());
    assert!(t.tip_switch());
}

#[test]
fn report_bytes_layout() {
    let mut r = PtpReport::new();
    r.contacts[1] = PtpContact::new(9, 0x1234, 0x5678, true, true);
    r.scan_time = 0xabcd;
    r.contact_count = 2;
    r.is_button_clicked = 1;
    let b = r.as_bytes();
    assert_eq!(b.len(), 50);
    assert_eq!(b[0], REPORTID_MULTITOUCH);
    assert_eq!(&b[1..10], &[0u8; 9]);
    assert_eq!(&b[10..19], &[3, 9, 0, 0, 0, 0x34, 0x12, 0x78, 0x56]);
    assert_eq!(&b[19..46], &[0u8; 27]);
    assert_eq!(&b[46..50], &[0xcd, 0xab, 2, 1]);
}

#[test]
fn device_caps_defaults() {
    let caps = PtpDeviceCapsReport::default_clickpad();
    assert_eq!(caps.report_id, REPORTID_DEVICE_CAPS);
    assert_eq!(caps.max_contact_points, 5);
    assert_eq!(caps.button_type, 0);
    assert_eq!(caps.as_bytes(), vec![7, 5, 0]);
}

#[test]
fn selective_reporting_single_switches() {
    let b = PtpSelectiveReportingReport { report_id: REPORTID_FUNC_SWITCH, switches: 0x01 };
    assert!(b.button_report_on());
    assert!(!b.surface_report_on());
    let s = PtpSelectiveReportingReport { report_id: REPORTID_FUNC_SWITCH, switches: 0xfe };
    assert!(!s.button_report_on());
    assert!(s.surface_report_on());
}
