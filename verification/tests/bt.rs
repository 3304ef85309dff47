use amt_ptp::bt::{
    multitouch_activation_report, recovery_due_time, DeviceContext, NextStep, RecoveryStep,
    MAX_RECOVERY_ATTEMPTS,
};
use amt_ptp::constants::{BT_VENDOR_ID_APPLE, DEVICE_VID, PID_MAGIC_TRACKPAD2};
use amt_ptp::feature::SetFeatureRequest;
use amt_ptp::usb::hid_device_attributes;

fn ready_device() -> DeviceContext {
    let mut dev = DeviceContext::new();
    let v = dev.prepare_virtual_device();
    assert_eq!(v.report_descriptor.len(), 518);
    dev.start_reporting(10_000_000, 1_000);
    dev.set_feature(SetFeatureRequest::InputMode { ptp: true });
    dev
}

fn one_finger_report() -> Vec<u8> {
    let mut raw = vec![0u8; 4 + 9];
    raw[1] = 1; // button
    raw[4 + 4] = 10; // touch major
    raw[4 + 8] = 0x01; // contact id 1
    raw
}

#[test]
fn defaults() {
    let dev = DeviceContext::new();
    assert!(!dev.device_configured);
    assert!(dev.vhf_ready);
    assert_eq!(dev.recovery_attempts, 0);
    assert!(!dev.reporting.ptp_input_on);
    assert!(!dev.can_issue_read(true));
}

#[test]
fn virtual_device_identity() {
    let mut dev = DeviceContext::new();
    let v = dev.prepare_virtual_device();
    assert_eq!(v.vendor_id, DEVICE_VID);
    assert_eq!(v.product_id, PID_MAGIC_TRACKPAD2);
    assert_eq!(v.version_number, 1);
    assert_eq!(dev.vendor_id, BT_VENDOR_ID_APPLE);
    assert_eq!(dev.device_info.unwrap().product_id, PID_MAGIC_TRACKPAD2);
    dev.start_reporting(5, 6);
    assert!(dev.device_configured && dev.can_issue_read(true) && !dev.can_issue_read(false));
    dev.stop_reporting();
    assert!(!dev.device_configured);
}

#[test]
fn read_completion_paths() {
    let mut dev = ready_device();
    let raw = one_finger_report();
    // Failed request: recovery
    let o = dev.on_read_complete(false, Some(&raw), 100, true);
    assert!(o.report.is_none());
    assert_eq!(o.next, NextStep::StartRecoveryTimer);
    // No buffer / empty: next read
    let o = dev.on_read_complete(true, None, 100, true);
    assert_eq!(o.next, NextStep::ReissueRead);
    let o = dev.on_read_complete(true, Some(&[]), 100, true);
    assert_eq!(o.next, NextStep::ReissueRead);
    // Malformed: recovery
    let o = dev.on_read_complete(true, Some(&raw[..7]), 100, true);
    assert!(o.report.is_none());
    assert_eq!(o.next, NextStep::StartRecoveryTimer);
    assert_eq!(dev.last_report_time, 1_000);
    // Good data: report submitted, VHF busy (9000 ticks at 10 MHz = 9 units)
    let o = dev.on_read_complete(true, Some(&raw), 10_000, true);
    assert_eq!(o.next, NextStep::ReissueRead);
    let rep = o.report.unwrap();
    assert_eq!(rep.scan_time, 9);
    assert_eq!(rep.contact_count, 1);
    assert_eq!(rep.is_button_clicked, 1);
    assert_eq!(rep.contacts[0].contact_id(), 1);
    assert!(!dev.vhf_ready);
    assert_eq!(dev.last_report_time, 10_000);
    // VHF not ready: no report, but timing advances
    let o = dev.on_read_complete(true, Some(&raw), 20_000, true);
    assert!(o.report.is_none());
    assert_eq!(dev.last_report_time, 20_000);
    // A refused submission re-arms VHF
    dev.on_report_submitted(false);
    assert!(dev.vhf_ready);
    dev.on_report_submitted(true);
    assert!(dev.vhf_ready);
    let _ = dev.on_read_complete(true, Some(&raw), 30_000, true);
    assert!(!dev.vhf_ready);
    dev.on_vhf_ready();
    assert!(dev.vhf_ready);
    // No VHF device: nothing to submit
    let o = dev.on_read_complete(true, Some(&raw), 40_000, false);
    assert!(o.report.is_none());
    assert!(dev.vhf_ready);
}

#[test]
fn read_completion_when_not_configured() {
    let mut dev = ready_device();
    dev.stop_reporting();
    let raw = one_finger_report();
    assert_eq!(dev.on_read_complete(false, Some(&raw), 1, true).next, NextStep::Idle);
    assert_eq!(dev.on_read_complete(true, None, 1, true).next, NextStep::Idle);
    let o = dev.on_read_complete(true, Some(&raw), 1, true);
    assert!(o.report.is_some());
    assert_eq!(o.next, NextStep::Idle);
    // Input mode off: nothing parsed
    let mut dev = ready_device();
    dev.set_feature(SetFeatureRequest::InputMode { ptp: false });
    let o = dev.on_read_complete(true, Some(&raw), 1, true);
    assert!(o.report.is_none());
    assert_eq!(o.next, NextStep::ReissueRead);
    // No device info: idle
    let mut dev = DeviceContext::new();
    dev.start_reporting(1, 0);
    assert_eq!(dev.on_read_complete(true, Some(&raw), 1, true).next, NextStep::Idle);
}

#[test]
fn recovery_gives_up_after_max_attempts() {
    let mut dev = ready_device();
    assert!(!dev.on_recovery_timer(false));
    assert_eq!(dev.recovery_attempts, 0);
    for n in 1..MAX_RECOVERY_ATTEMPTS {
        assert!(dev.on_recovery_timer(true));
        assert_eq!(dev.recovery_attempts, n);
        assert_eq!(dev.on_multitouch_activation(false), RecoveryStep::RestartTimer);
    }
    assert!(dev.on_recovery_timer(true));
    assert_eq!(dev.recovery_attempts, MAX_RECOVERY_ATTEMPTS);
    assert_eq!(dev.on_multitouch_activation(false), RecoveryStep::GiveUp);
    assert_eq!(dev.on_multitouch_activation(true), RecoveryStep::ResumeAndRead);
    assert!(!dev.on_recovery_read_issued(false));
    assert!(!dev.on_recovery_read_issued(true));
    assert_eq!(dev.recovery_attempts, 0);
    dev.stop_reporting();
    assert!(!dev.on_recovery_timer(true));
}

#[test]
fn recovery_read_failure_restarts_timer() {
    let mut dev = ready_device();
    assert!(dev.on_recovery_timer(true));
    assert!(dev.on_recovery_read_issued(false));
    assert_eq!(dev.recovery_attempts, 1);
}

#[test]
fn constants_for_transport() {
    assert_eq!(recovery_due_time(), -20_000_000);
    let (id, data) = multitouch_activation_report();
    assert_eq!(id, 0xF1);
    assert_eq!(data, vec![0xF1, 0x02, 0x01]);
}

#[test]
fn device_attributes_round_trip() {
    let mut dev = DeviceContext::new();
    dev.on_device_attributes(&hid_device_attributes(0x004c, 0x0265));
    assert_eq!(dev.vendor_id, 0x004c);
    assert_eq!(dev.product_id, 0x0265);
    assert_eq!(dev.version_number, 1);
}

#[test]
fn counter_delta_only_for_reports() {
    let mut dev = ready_device();
    let raw = one_finger_report();
    assert!(dev.read_uses_counter_delta(true, Some(&raw)));
    assert!(!dev.read_uses_counter_delta(false, Some(&raw)));
    assert!(!dev.read_uses_counter_delta(true, None));
    assert!(!dev.read_uses_counter_delta(true, Some(&[])));
    assert!(!dev.read_uses_counter_delta(true, Some(&raw[..7])));
    // A failed read may come with any counter value
    let o = dev.on_read_complete(false, Some(&raw), i64::MIN, true);
    assert!(o.report.is_none());
    // No frequency: the scan time is zero and the delta is not used
    dev.start_reporting(0, 1_000);
    assert!(!dev.read_uses_counter_delta(true, Some(&raw)));
    let o = dev.on_read_complete(true, Some(&raw), 50_000, true);
    assert_eq!(o.report.unwrap().scan_time, 0);
}
