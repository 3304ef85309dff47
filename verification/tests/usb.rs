use amt_ptp::constants::{PID_MAGIC_TRACKPAD2, PID_T2_7A, USB_VENDOR_ID_APPLE};
use amt_ptp::feature::SetFeatureRequest;
use amt_ptp::usb::{
    classify_ioctl, find_interrupt_pipe, hid_ctl_code, hid_device_attributes, ControlTransfer,
    DeviceContext, HidIoctl, UsbError, WellspringNext,
};

#[test]
fn ioctl_codes() {
    assert_eq!(hid_ctl_code(0), 0x000B_0003);
    assert_eq!(hid_ctl_code(1), 0x000B_0007);
    assert_eq!(hid_ctl_code(2), 0x000B_000B);
    assert_eq!(hid_ctl_code(100), 0x000B_0193);
    assert_eq!(hid_ctl_code(101), 0x000B_0197);
    assert_eq!(classify_ioctl(0x000B_0003), HidIoctl::GetDeviceDescriptor);
    assert_eq!(classify_ioctl(0x000B_0007), HidIoctl::GetReportDescriptor);
    assert_eq!(classify_ioctl(0x000B_000B), HidIoctl::ReadReport);
    assert_eq!(classify_ioctl(hid_ctl_code(9)), HidIoctl::GetDeviceAttributes);
    assert_eq!(classify_ioctl(0x000B_0197), HidIoctl::GetFeature);
    assert_eq!(classify_ioctl(0x000B_0193), HidIoctl::SetFeature);
    assert_eq!(classify_ioctl(hid_ctl_code(3)), HidIoctl::Unsupported);
    assert_eq!(classify_ioctl(0), HidIoctl::Unsupported);
}

#[test]
fn interrupt_pipe_selection() {
    assert_eq!(find_interrupt_pipe(&[false, true, true]), Some(1));
    assert_eq!(find_interrupt_pipe(&[true]), Some(0));
    assert_eq!(find_interrupt_pipe(&[false, false]), None);
    assert_eq!(find_interrupt_pipe(&[]), None);
}

#[test]
fn device_attributes_layout() {
    let a = hid_device_attributes(0x05ac, 0x0265);
    assert_eq!(a.len(), 32);
    assert_eq!(&a[..10], &[32, 0, 0, 0, 0xac, 0x05, 0x65, 0x02, 1, 0]);
    assert!(a[10..].iter().all(|&b| b == 0));
}

#[test]
fn defaults_and_identification() {
    let mut dev = DeviceContext::new();
    assert!(dev.device_info.is_none());
    assert!(!dev.is_wellspring_mode_on);
    assert!(!dev.reporting.ptp_input_on);
    assert!(dev.reporting.ptp_report_touch && dev.reporting.ptp_report_button);
    assert_eq!(dev.continuous_reader_transfer_length(), Err(UsbError::DeviceNotReady));
    assert_eq!(dev.wellspring_read_request(), Err(UsbError::DeviceNotReady));
    assert_eq!(dev.hid_descriptor(), Err(UsbError::DeviceNotReady));
    assert_eq!(dev.report_descriptor(), Err(UsbError::DeviceNotReady));
    dev.identify(USB_VENDOR_ID_APPLE, PID_MAGIC_TRACKPAD2);
    assert_eq!(dev.device_info.unwrap().product_id, PID_MAGIC_TRACKPAD2);
    assert_eq!(dev.continuous_reader_transfer_length(), Ok(12 + 16 * 9));
    let a = dev.device_attributes();
    assert_eq!(&a[4..8], &[0xac, 0x05, 0x65, 0x02]);
    dev.init_defaults();
    assert!(dev.device_info.is_none());
}

#[test]
fn wellspring_transfers() {
    let mut dev = DeviceContext::new();
    dev.identify(USB_VENDOR_ID_APPLE, PID_T2_7A);
    assert_eq!(
        dev.wellspring_read_request(),
        Ok(ControlTransfer { request: 1, device_to_host: true, value: 0x302, index: 2, length: 2 })
    );
    assert_eq!(
        dev.wellspring_write_request(),
        Ok(ControlTransfer { request: 9, device_to_host: false, value: 0x302, index: 2, length: 2 })
    );
    dev.on_wellspring_written(true, false);
    assert!(!dev.is_wellspring_mode_on);
    dev.on_wellspring_written(true, true);
    assert!(dev.is_wellspring_mode_on);
    dev.on_wellspring_written(false, true);
    assert!(!dev.is_wellspring_mode_on);
}

#[test]
fn descriptors_for_mt2() {
    let mut dev = DeviceContext::new();
    dev.identify(USB_VENDOR_ID_APPLE, PID_MAGIC_TRACKPAD2);
    let rd = dev.report_descriptor().unwrap();
    assert_eq!(rd.len(), 518);
    let hd = dev.hid_descriptor().unwrap();
    assert_eq!(hd, vec![9, 0x21, 0x00, 0x01, 0x00, 0x01, 0x22, (518 & 0xff) as u8, (518 >> 8) as u8]);
}

#[test]
fn set_feature_and_power_up() {
    let mut dev = DeviceContext::new();
    assert!(dev.wellspring_on_at_power_up());
    assert!(dev.set_feature(SetFeatureRequest::InputMode { ptp: true }));
    assert!(!dev.reporting.ptp_input_on);
    dev.enable_ptp_input();
    assert!(dev.reporting.ptp_input_on);
    assert!(!dev.set_feature(SetFeatureRequest::InputMode { ptp: false }));
    assert!(!dev.reporting.ptp_input_on);
    assert!(!dev.set_feature(SetFeatureRequest::SelectiveReporting { button: false, surface: false }));
    assert!(!dev.wellspring_on_at_power_up());
    dev.record_clock(10_000_000, 77);
    assert_eq!(dev.perf_freq, 10_000_000);
    assert_eq!(dev.last_report_time, 77);
}

#[test]
fn touch_data_to_report() {
    let mut dev = DeviceContext::new();
    let mut raw = vec![0u8; 12 + 9];
    raw[1] = 1; // button
    raw[12 + 4] = 10; // touch major
    raw[12 + 8] = 0x02; // contact id 2
    // Not identified: nothing
    assert!(dev.parse_touch_data(&raw).is_none());
    dev.identify(USB_VENDOR_ID_APPLE, PID_MAGIC_TRACKPAD2);
    // PTP input off: nothing
    assert!(dev.parse_touch_data(&raw).is_none());
    dev.enable_ptp_input();
    assert!(dev.parse_touch_data(&[]).is_none());
    assert!(dev.parse_touch_data(&raw[..20]).is_none());
    // 10 MHz counter
    dev.record_clock(10_000_000, 1000);
    let frame = dev.parse_touch_data(&raw).unwrap();
    assert_eq!(frame.count, 1);
    // 1_000_000 ticks at 10 MHz = 100 ms = 1000 units of 100 µs
    let report = dev.complete_touch_report(&frame, 1000 + 1_000_000);
    assert_eq!(dev.last_report_time, 1_001_000);
    assert_eq!(report.scan_time, 1000);
    assert_eq!(report.contact_count, 1);
    assert_eq!(report.is_button_clicked, 1);
    assert_eq!(report.contacts[0].contact_id(), 2);
    assert_eq!(report.contacts[0].x(), 3678);
    assert!(report.contacts[0].tip_switch());
}

#[test]
fn wellspring_read_decides_the_write() {
    let mut dev = DeviceContext::new();
    let mut buf = [7u8, 9u8];
    // Not identified
    assert_eq!(dev.on_wellspring_read(true, &mut buf, true), WellspringNext::Fail(UsbError::DeviceNotReady));
    dev.identify(USB_VENDOR_ID_APPLE, PID_MAGIC_TRACKPAD2);
    // A failed read stops, buffer untouched
    assert_eq!(dev.on_wellspring_read(false, &mut buf, true), WellspringNext::Stop);
    assert_eq!(buf, [7, 9]);
    // Switch index 1 outside a 1-byte buffer
    let mut short = [7u8];
    assert_eq!(dev.on_wellspring_read(true, &mut short, true), WellspringNext::Fail(UsbError::InvalidParameter));
    assert_eq!(short, [7]);
    // Switch on, then the write transfer
    let write = dev.wellspring_write_request().unwrap();
    assert_eq!(dev.on_wellspring_read(true, &mut buf, true), WellspringNext::Write(write));
    assert_eq!(buf, [7, 1]);
    assert_eq!(dev.on_wellspring_read(true, &mut buf, false), WellspringNext::Write(write));
    assert_eq!(buf, [7, 0]);
}
