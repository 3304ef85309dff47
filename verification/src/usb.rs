//! Decisions of the USB driver.
//!
//! The USB driver sits below the HID class driver: it switches the trackpad
//! into Wellspring (raw multitouch) mode with USB control transfers, reads
//! touch data from the interrupt pipe, and answers the HID class driver's
//! internal IOCTLs. The USB and WDF calls stay with the driver; this module
//! holds the device's plain-value state and every decision the driver makes
//! between those calls: which pipe to read, what control transfers to send,
//! what each IOCTL answers, and which PTP report a touch frame becomes.
use vstd::prelude::*;
use crate::constants::{DEVICE_VERSION, WELLSPRING_MODE_READ_REQUEST_ID, WELLSPRING_MODE_WRITE_REQUEST_ID};
use crate::device::{config_ranges_ok, lemma_lookup_config_ranges_ok, lookup_config, spec_lookup_config, DeviceConfig, WellspringMsg};
use crate::feature::{ReportingState, SetFeatureRequest};
use crate::hid::{build_report_descriptor, spec_report_descriptor, REPORT_DESCRIPTOR_LEN};
use crate::finger::lemma_parse_in_range;
use crate::input::{
    build_ptp_report, fingers_transformable, frame_of_report, lemma_frame_transformable, parse_touch_frame,
    report_for_frame, scan_time, scan_time_uses_delta, spec_scan_time, TouchFrame,
};
use crate::ptp::PtpReport;
use crate::wire::{le16_at, le16_bytes, le32_at, spec_le16_bytes};

verus! {

/// Why a USB driver operation cannot go ahead.
#[derive(Debug, Clone, Copy, PartialEq, Eq, Structural)]
pub enum UsbError {
    /// The device has not been identified yet (no configuration).
    DeviceNotReady,
    /// The Wellspring switch byte lies outside the control buffer.
    InvalidParameter,
    /// The report size of the device type is zero.
    UnknownRevision,
}

/// Per-device state of the USB driver: the plain values the driver keeps
/// beside its USB and WDF handles.
#[derive(Debug, Clone, Copy)]
pub struct DeviceContext {
    /// USB vendor ID from the device descriptor.
    pub vendor_id: u16,
    /// USB product ID from the device descriptor.
    pub product_id: u16,
    /// The device configuration, once the device is identified.
    pub device_info: Option<DeviceConfig>,
    /// Whether Wellspring mode (raw multitouch data) is active.
    pub is_wellspring_mode_on: bool,
    /// The PTP reporting switches.
    pub reporting: ReportingState,
    /// Performance counter frequency (ticks per second).
    pub perf_freq: i64,
    /// Performance counter value at the last report.
    pub last_report_time: i64,
}

/// What follows the read transfer of the Wellspring mode buffer.
#[derive(Debug, Clone, Copy, PartialEq, Eq, Structural)]
pub enum WellspringNext {
    /// The read failed: stop, with the read's status.
    Stop,
    /// The switch could not be set: stop with this error.
    Fail(UsbError),
    /// The switch byte is set: send this write transfer with the buffer.
    Write(ControlTransfer),
}

/// A USB class control transfer to the trackpad interface.
#[derive(Debug, Clone, Copy, PartialEq, Eq, Structural)]
pub struct ControlTransfer {
    /// bRequest.
    pub request: u8,
    /// Whether data flows from the device to the host.
    pub device_to_host: bool,
    /// wValue.
    pub value: u16,
    /// wIndex.
    pub index: u16,
    /// Data length.
    pub length: u16,
}

/// HID minidriver internal IOCTLs that the USB driver serves.
#[derive(Debug, Clone, Copy, PartialEq, Eq, Structural)]
pub enum HidIoctl {
    /// IOCTL_HID_GET_DEVICE_DESCRIPTOR
    GetDeviceDescriptor,
    /// IOCTL_HID_GET_REPORT_DESCRIPTOR
    GetReportDescriptor,
    /// IOCTL_HID_READ_REPORT
    ReadReport,
    /// IOCTL_HID_GET_DEVICE_ATTRIBUTES
    GetDeviceAttributes,
    /// IOCTL_HID_GET_FEATURE
    GetFeature,
    /// IOCTL_HID_SET_FEATURE
    SetFeature,
    /// Any other code.
    Unsupported,
}

/// `CTL_CODE(FILE_DEVICE_KEYBOARD, id, METHOD_NEITHER, FILE_ANY_ACCESS)`.
pub open spec fn spec_hid_ctl_code(id: u32) -> u32 {
    ((0x0Bu32 << 16u32) | (id << 2u32) | 3u32) as u32
}

/// The HID internal IOCTL code with function number `id`:
/// `CTL_CODE(FILE_DEVICE_KEYBOARD, id, METHOD_NEITHER, FILE_ANY_ACCESS)`.
pub fn hid_ctl_code(id: u32) -> (r: u32)
    ensures
        r == spec_hid_ctl_code(id),
        id < 0x4000 ==> r == 0xB0003 + 4 * id,
{
    let r: u32 = (0x0Bu32 << 16u32) | (id << 2u32) | 3u32;
    assert(id < 0x4000 ==> r == 0xB0003 + 4 * id) by (bit_vector)
        requires r == (0x0Bu32 << 16u32) | (id << 2u32) | 3u32;
    r
}

/// The IOCTL that `code` names.
pub open spec fn spec_classify_ioctl(code: u32) -> HidIoctl {
    if code == spec_hid_ctl_code(0) {
        HidIoctl::GetDeviceDescriptor
    } else if code == spec_hid_ctl_code(1) {
        HidIoctl::GetReportDescriptor
    } else if code == spec_hid_ctl_code(2) {
        HidIoctl::ReadReport
    } else if code == spec_hid_ctl_code(9) {
        HidIoctl::GetDeviceAttributes
    } else if code == spec_hid_ctl_code(101) {
        HidIoctl::GetFeature
    } else if code == spec_hid_ctl_code(100) {
        HidIoctl::SetFeature
    } else {
        HidIoctl::Unsupported
    }
}

/// Route an internal device control code to the HID IOCTL it names.
pub fn classify_ioctl(code: u32) -> (r: HidIoctl)
    ensures
        r == spec_classify_ioctl(code),
{
    if code == hid_ctl_code(0) {
        HidIoctl::GetDeviceDescriptor
    } else if code == hid_ctl_code(1) {
        HidIoctl::GetReportDescriptor
    } else if code == hid_ctl_code(2) {
        HidIoctl::ReadReport
    } else if code == hid_ctl_code(9) {
        HidIoctl::GetDeviceAttributes
    } else if code == hid_ctl_code(101) {
        HidIoctl::GetFeature
    } else if code == hid_ctl_code(100) {
        HidIoctl::SetFeature
    } else {
        HidIoctl::Unsupported
    }
}

/// Index of the first interrupt pipe among the configured pipes of the
/// interface (`pipe_is_interrupt[i]` tells whether pipe `i` is one).
pub fn find_interrupt_pipe(pipe_is_interrupt: &[bool]) -> (r: Option<usize>)
    ensures
        match r {
            Some(i) => i < pipe_is_interrupt@.len() && pipe_is_interrupt@[i as int]
                && forall|j: int| 0 <= j < i ==> !#[trigger] pipe_is_interrupt@[j],
            None => forall|j: int| 0 <= j < pipe_is_interrupt@.len() ==> !#[trigger] pipe_is_interrupt@[j],
        },
{
    let mut i: usize = 0;
    while i < pipe_is_interrupt.len()
        invariant
            0 <= i <= pipe_is_interrupt@.len(),
            forall|j: int| 0 <= j < i ==> !#[trigger] pipe_is_interrupt@[j],
        decreases pipe_is_interrupt@.len() - i,
    {
        if pipe_is_interrupt[i] {
            return Some(i);
        }
        i = i + 1;
    }
    None
}

/// The 9-byte HID descriptor for a report descriptor of `report_len` bytes:
/// length 9, type 0x21 (HID), HID 1.00, no country, one descriptor of type
/// 0x22 (Report) and its length, little-endian.
pub open spec fn spec_hid_descriptor(report_len: u16) -> Seq<u8> {
    seq![9u8, 0x21u8, 0x00u8, 0x01u8, 0x00u8, 0x01u8, 0x22u8] + spec_le16_bytes(report_len)
}

/// The 32-byte HID device attributes: their size, the vendor and product
/// IDs, the driver version, and reserved zeros; little-endian.
pub open spec fn spec_hid_device_attributes(vendor_id: u16, product_id: u16) -> Seq<u8> {
    seq![32u8, 0u8, 0u8, 0u8] + spec_le16_bytes(vendor_id) + spec_le16_bytes(product_id)
        + spec_le16_bytes(DEVICE_VERSION as u16) + Seq::new(22, |i: int| 0u8)
}

/// The HID device attributes for the given vendor and product IDs.
pub fn hid_device_attributes(vendor_id: u16, product_id: u16) -> (r: Vec<u8>)
    ensures
        r@ == spec_hid_device_attributes(vendor_id, product_id),
        r@.len() == 32,
{
    let mut out: Vec<u8> = Vec::new();
    out.push(32);
    out.push(0);
    out.push(0);
    out.push(0);
    let v = le16_bytes(vendor_id);
    let p = le16_bytes(product_id);
    let ver = le16_bytes(DEVICE_VERSION as u16);
    out.push(v[0]);
    out.push(v[1]);
    out.push(p[0]);
    out.push(p[1]);
    out.push(ver[0]);
    out.push(ver[1]);
    let mut i: usize = 0;
    while i < 22
        invariant
            0 <= i <= 22,
            out@ == seq![32u8, 0u8, 0u8, 0u8] + spec_le16_bytes(vendor_id) + spec_le16_bytes(product_id)
                + spec_le16_bytes(DEVICE_VERSION as u16) + Seq::new(i as nat, |k: int| 0u8),
        decreases 22 - i,
    {
        out.push(0);
        i = i + 1;
        assert(out@ =~= seq![32u8, 0u8, 0u8, 0u8] + spec_le16_bytes(vendor_id) + spec_le16_bytes(product_id)
            + spec_le16_bytes(DEVICE_VERSION as u16) + Seq::new(i as nat, |k: int| 0u8));
    }
    out
}

/// The HID descriptor announces exactly the length of the report
/// descriptor that the driver serves for any device configuration.
pub proof fn lemma_hid_descriptor_announces_report_descriptor(c: DeviceConfig)
    ensures
        ({
            let hd = spec_hid_descriptor(REPORT_DESCRIPTOR_LEN as u16);
            let rd = spec_report_descriptor(
                (c.x.max - c.x.min) as u16,
                (c.y.max - c.y.min) as u16,
                c.spec_ptp_x_physical_max(),
                c.spec_ptp_y_physical_max(),
            );
            hd.len() == 9 && le16_at(hd, 7) == rd.len()
        }),
{
    crate::hid::lemma_report_descriptor_layout(
        (c.x.max - c.x.min) as u16,
        (c.y.max - c.y.min) as u16,
        c.spec_ptp_x_physical_max(),
        c.spec_ptp_y_physical_max(),
    );
    let hd = spec_hid_descriptor(REPORT_DESCRIPTOR_LEN as u16);
    assert(hd[7] == 6 && hd[8] == 2);
}

/// The device attributes the USB driver reports read back as the vendor
/// ID, product ID and driver version they were built from.
pub proof fn lemma_device_attributes_round_trip(vendor_id: u16, product_id: u16)
    ensures
        ({
            let a = spec_hid_device_attributes(vendor_id, product_id);
            &&& a.len() == 32
            &&& le16_at(a, 4) == vendor_id
            &&& le16_at(a, 6) == product_id
            &&& le16_at(a, 8) == DEVICE_VERSION
            &&& le32_at(a, 0) == a.len()
        }),
{
    let a = spec_hid_device_attributes(vendor_id, product_id);
    assert(a[4] == vendor_id % 256 && a[5] == vendor_id / 256);
    assert(a[6] == product_id % 256 && a[7] == product_id / 256);
    assert(a[8] == 1 && a[9] == 0);
    assert(a[0] == 32 && a[1] == 0 && a[2] == 0 && a[3] == 0);
}

impl DeviceContext {
    /// The state `init_defaults` establishes.
    pub open spec fn spec_default() -> Self {
        DeviceContext {
            vendor_id: 0,
            product_id: 0,
            device_info: None,
            is_wellspring_mode_on: false,
            reporting: ReportingState { ptp_input_on: false, ptp_report_touch: true, ptp_report_button: true },
            perf_freq: 0,
            last_report_time: 0,
        }
    }

    /// The device's configuration, if any, has coordinate limits in range.
    pub open spec fn wf(self) -> bool {
        self.device_info matches Some(c) ==> config_ranges_ok(c)
    }

    /// A device context with default values: not identified, Wellspring mode
    /// off, PTP input off, touch and button reporting on, no timing yet.
    pub fn new() -> (r: Self)
        ensures
            r == Self::spec_default(),
            r.wf(),
    {
        DeviceContext {
            vendor_id: 0,
            product_id: 0,
            device_info: None,
            is_wellspring_mode_on: false,
            reporting: ReportingState::new(),
            perf_freq: 0,
            last_report_time: 0,
        }
    }

    /// Reset this context to its default values.
    pub fn init_defaults(&mut self)
        ensures
            *final(self) == Self::spec_default(),
            final(self).wf(),
    {
        *self = Self::new();
    }

    /// Record the device descriptor's IDs and look up the configuration for
    /// the product ID (the fallback one when the product is unknown).
    pub fn identify(&mut self, vendor_id: u16, product_id: u16)
        ensures
            *final(self) == (DeviceContext {
                vendor_id,
                product_id,
                device_info: Some(spec_lookup_config(product_id)),
                ..*old(self)
            }),
            final(self).wf(),
    {
        self.vendor_id = vendor_id;
        self.product_id = product_id;
        self.device_info = Some(lookup_config(product_id));
        proof {
            lemma_lookup_config_ranges_ok(product_id);
        }
    }

    /// Transfer length of the continuous reader on the interrupt pipe: one
    /// full report of the device's type.
    pub fn continuous_reader_transfer_length(&self) -> (r: Result<usize, UsbError>)
        ensures
            match self.device_info {
                None => r == Err::<usize, UsbError>(UsbError::DeviceNotReady),
                Some(c) => r == Ok::<usize, UsbError>(
                    (c.trackpad_type.spec_header_size_usb() + 16 * c.trackpad_type.spec_finger_size()) as usize,
                ),
            },
    {
        match self.device_info {
            None => Err(UsbError::DeviceNotReady),
            Some(c) => {
                let len = c.trackpad_type.usb_report_size();
                if len == 0 {
                    Err(UsbError::UnknownRevision)
                } else {
                    Ok(len)
                }
            },
        }
    }

    /// The control transfer that reads the current Wellspring mode.
    pub fn wellspring_read_request(&self) -> (r: Result<ControlTransfer, UsbError>)
        ensures
            match self.device_info {
                None => r == Err::<ControlTransfer, UsbError>(UsbError::DeviceNotReady),
                Some(c) => r == Ok::<ControlTransfer, UsbError>(ControlTransfer {
                    request: WELLSPRING_MODE_READ_REQUEST_ID,
                    device_to_host: true,
                    value: c.wellspring_msg.req_val,
                    index: c.wellspring_msg.req_idx,
                    length: c.wellspring_msg.size,
                }),
            },
    {
        match self.device_info {
            None => Err(UsbError::DeviceNotReady),
            Some(c) => Ok(ControlTransfer {
                request: WELLSPRING_MODE_READ_REQUEST_ID,
                device_to_host: true,
                value: c.wellspring_msg.req_val,
                index: c.wellspring_msg.req_idx,
                length: c.wellspring_msg.size,
            }),
        }
    }

    /// The control transfer that writes the Wellspring mode back: the same
    /// transfer as the read, in the other direction, with request 9.
    pub fn wellspring_write_request(&self) -> (r: Result<ControlTransfer, UsbError>)
        ensures
            match self.device_info {
                None => r == Err::<ControlTransfer, UsbError>(UsbError::DeviceNotReady),
                Some(c) => r == Ok::<ControlTransfer, UsbError>(ControlTransfer {
                    request: WELLSPRING_MODE_WRITE_REQUEST_ID,
                    device_to_host: false,
                    value: c.wellspring_msg.req_val,
                    index: c.wellspring_msg.req_idx,
                    length: c.wellspring_msg.size,
                }),
            },
    {
        match self.device_info {
            None => Err(UsbError::DeviceNotReady),
            Some(c) => Ok(ControlTransfer {
                request: WELLSPRING_MODE_WRITE_REQUEST_ID,
                device_to_host: false,
                value: c.wellspring_msg.req_val,
                index: c.wellspring_msg.req_idx,
                length: c.wellspring_msg.size,
            }),
        }
    }

    /// Set the mode switch byte in the control buffer that the read transfer
    /// filled (`buffer`, of the message's size): the "on" value to enable
    /// Wellspring mode, the "off" value to disable it. A switch index outside
    /// the buffer is refused and the buffer left as it is.
    pub fn apply_wellspring_switch(&self, buffer: &mut [u8], enable: bool) -> (r: Result<(), UsbError>)
        ensures
            match self.device_info {
                None => r == Err::<(), UsbError>(UsbError::DeviceNotReady) && final(buffer)@ == old(buffer)@,
                Some(c) => if c.wellspring_msg.switch_idx >= old(buffer)@.len() {
                    r == Err::<(), UsbError>(UsbError::InvalidParameter) && final(buffer)@ == old(buffer)@
                } else {
                    r == Ok::<(), UsbError>(()) && final(buffer)@ == old(buffer)@.update(
                        c.wellspring_msg.switch_idx as int,
                        if enable { c.wellspring_msg.switch_on } else { c.wellspring_msg.switch_off },
                    )
                },
            },
    {
        let msg = match self.device_info {
            Some(c) => c.wellspring_msg,
            None => return Err(UsbError::DeviceNotReady),
        };
        let switch_idx = msg.switch_idx as usize;
        if switch_idx >= buffer.len() {
            return Err(UsbError::InvalidParameter);
        }
        buffer[switch_idx] = if enable { msg.switch_on } else { msg.switch_off };
        Ok(())
    }

    /// Record the outcome of writing the Wellspring mode: on success the mode
    /// is now `enable`; on failure nothing changes.
    pub fn on_wellspring_written(&mut self, enable: bool, ok: bool)
        ensures
            *final(self) == (if ok { DeviceContext { is_wellspring_mode_on: enable, ..*old(self) } } else { *old(self) }),
    {
        if ok {
            self.is_wellspring_mode_on = enable;
        }
    }

    /// Decide what follows the read transfer of the Wellspring mode buffer
    /// (`read_ok` tells whether it succeeded). A failed read stops the
    /// switch; otherwise the switch byte is set in `buffer` as
    /// [`Self::apply_wellspring_switch`] does, and on success the write
    /// transfer follows.
    pub fn on_wellspring_read(&self, read_ok: bool, buffer: &mut [u8], enable: bool) -> (r: WellspringNext)
        ensures
            !read_ok ==> r == WellspringNext::Stop && final(buffer)@ == old(buffer)@,
            read_ok ==> match self.device_info {
                None => r == WellspringNext::Fail(UsbError::DeviceNotReady) && final(buffer)@ == old(buffer)@,
                Some(c) => if c.wellspring_msg.switch_idx >= old(buffer)@.len() {
                    r == WellspringNext::Fail(UsbError::InvalidParameter) && final(buffer)@ == old(buffer)@
                } else {
                    &&& r == WellspringNext::Write(ControlTransfer {
                        request: WELLSPRING_MODE_WRITE_REQUEST_ID,
                        device_to_host: false,
                        value: c.wellspring_msg.req_val,
                        index: c.wellspring_msg.req_idx,
                        length: c.wellspring_msg.size,
                    })
                    &&& final(buffer)@ == old(buffer)@.update(
                        c.wellspring_msg.switch_idx as int,
                        if enable { c.wellspring_msg.switch_on } else { c.wellspring_msg.switch_off },
                    )
                },
            },
    {
        if !read_ok {
            return WellspringNext::Stop;
        }
        match self.apply_wellspring_switch(buffer, enable) {
            Err(e) => WellspringNext::Fail(e),
            Ok(()) => match self.wellspring_write_request() {
                Ok(write) => WellspringNext::Write(write),
                Err(e) => WellspringNext::Fail(e),
            },
        }
    }

    /// Whether entering D0 switches Wellspring mode on: when button or touch
    /// reporting is requested.
    pub fn wellspring_on_at_power_up(&self) -> (r: bool)
        ensures
            r == (self.reporting.ptp_report_button || self.reporting.ptp_report_touch),
    {
        self.reporting.ptp_report_button || self.reporting.ptp_report_touch
    }

    /// Record the performance counter's frequency and current value when
    /// the device enters D0, as the origin of the next scan time.
    pub fn record_clock(&mut self, perf_freq: i64, counter: i64)
        ensures
            *final(self) == (DeviceContext { perf_freq, last_report_time: counter, ..*old(self) }),
    {
        self.perf_freq = perf_freq;
        self.last_report_time = counter;
    }

    /// The HID descriptor, which gives the report descriptor's length.
    pub fn hid_descriptor(&self) -> (r: Result<Vec<u8>, UsbError>)
        requires
            self.wf(),
        ensures
            match self.device_info {
                None => r is Err && r->Err_0 == UsbError::DeviceNotReady,
                Some(c) => r is Ok && r->Ok_0@ == spec_hid_descriptor(REPORT_DESCRIPTOR_LEN as u16),
            },
    {
        match self.device_info {
            None => Err(UsbError::DeviceNotReady),
            Some(c) => {
                let d = build_report_descriptor(c.ptp_x_logical_max(), c.ptp_y_logical_max(), c.ptp_x_physical_max(), c.ptp_y_physical_max());
                let len = le16_bytes(d.len() as u16);
                let mut out: Vec<u8> = Vec::new();
                out.push(9);
                out.push(0x21);
                out.push(0x00);
                out.push(0x01);
                out.push(0x00);
                out.push(0x01);
                out.push(0x22);
                out.push(len[0]);
                out.push(len[1]);
                assert(out@ =~= spec_hid_descriptor(REPORT_DESCRIPTOR_LEN as u16));
                Ok(out)
            },
        }
    }

    /// The HID device attributes: the device descriptor's vendor and product
    /// IDs and the driver version.
    pub fn device_attributes(&self) -> (r: Vec<u8>)
        ensures
            r@ == spec_hid_device_attributes(self.vendor_id, self.product_id),
    {
        hid_device_attributes(self.vendor_id, self.product_id)
    }

    /// The HID report descriptor, built from the device's coordinate ranges.
    pub fn report_descriptor(&self) -> (r: Result<Vec<u8>, UsbError>)
        requires
            self.wf(),
        ensures
            match self.device_info {
                None => r is Err && r->Err_0 == UsbError::DeviceNotReady,
                Some(c) => r is Ok && r->Ok_0@ == spec_report_descriptor(
                    (c.x.max - c.x.min) as u16,
                    (c.y.max - c.y.min) as u16,
                    c.spec_ptp_x_physical_max(),
                    c.spec_ptp_y_physical_max(),
                ),
            },
    {
        match self.device_info {
            None => Err(UsbError::DeviceNotReady),
            Some(c) => Ok(build_report_descriptor(c.ptp_x_logical_max(), c.ptp_y_logical_max(), c.ptp_x_physical_max(), c.ptp_y_physical_max())),
        }
    }

    /// First step of a SET_FEATURE request. Switching to PTP input mode
    /// needs Wellspring mode first: the result is `true` and nothing changes
    /// until [`Self::enable_ptp_input`]. Any other request takes effect now
    /// and the result is `false`.
    pub fn set_feature(&mut self, req: SetFeatureRequest) -> (needs_wellspring: bool)
        ensures
            needs_wellspring == (req == SetFeatureRequest::InputMode { ptp: true }),
            *final(self) == (if needs_wellspring { *old(self) } else {
                DeviceContext { reporting: old(self).reporting.spec_apply(req), ..*old(self) }
            }),
    {
        match req {
            SetFeatureRequest::InputMode { ptp: true } => true,
            _ => {
                self.reporting.apply(req);
                false
            },
        }
    }

    /// Wellspring mode is on: PTP input reporting starts.
    pub fn enable_ptp_input(&mut self)
        ensures
            *final(self) == (DeviceContext {
                reporting: ReportingState { ptp_input_on: true, ..old(self).reporting },
                ..*old(self)
            }),
    {
        self.reporting.ptp_input_on = true;
    }

    /// Parse the touch data the interrupt pipe delivered. Nothing comes of it
    /// when the device is not identified, PTP input is off, no bytes arrived,
    /// or the data does not parse.
    pub fn parse_touch_data(&self, raw: &[u8]) -> (r: Option<TouchFrame>)
        requires
            self.wf(),
        ensures
            match r {
                Some(frame) => self.device_info is Some && self.reporting.ptp_input_on && raw@.len() > 0
                    && frame_of_report(frame, raw@, self.device_info->Some_0, self.device_info->Some_0.trackpad_type.spec_header_size_usb())
                    && frame.count <= 5
                    && fingers_transformable(frame.fingers@, frame.count as int, self.device_info->Some_0),
                None => self.device_info is None || !self.reporting.ptp_input_on || raw@.len() == 0
                    || crate::finger::spec_parse_report(raw@, self.device_info->Some_0,
                        self.device_info->Some_0.trackpad_type.spec_header_size_usb(), 5) is Err,
            },
    {
        let config = match self.device_info {
            Some(c) => c,
            None => return None,
        };
        if !self.reporting.ptp_input_on || raw.len() == 0 {
            return None;
        }
        let header_size = config.trackpad_type.header_size_usb();
        proof {
            lemma_parse_in_range(raw@, config, header_size, 5);
        }
        match parse_touch_frame(raw, &config, header_size) {
            Ok(frame) => {
                proof {
                    lemma_frame_transformable(frame, raw@, config, header_size);
                }
                Some(frame)
            },
            Err(_) => None,
        }
    }

    /// Turn a parsed frame into the PTP input report, stamped with the scan
    /// time since the previous report (measured with the counter frequency
    /// recorded at D0 entry); `now` becomes the previous report time.
    pub fn complete_touch_report(&mut self, frame: &TouchFrame, now: i64) -> (r: PtpReport)
        requires
            old(self).wf(),
            old(self).device_info is Some,
            scan_time_uses_delta(old(self).last_report_time as int, old(self).perf_freq as int)
                ==> i64::MIN <= now - old(self).last_report_time <= i64::MAX,
            frame.count <= 5,
            fingers_transformable(frame.fingers@, frame.count as int, old(self).device_info->Some_0),
        ensures
            *final(self) == (DeviceContext { last_report_time: now, ..*old(self) }),
            report_for_frame(
                r,
                frame.fingers@,
                frame.count as int,
                frame.button,
                old(self).device_info->Some_0,
                old(self).reporting.ptp_report_touch,
                old(self).reporting.ptp_report_button,
                spec_scan_time(now as int, old(self).last_report_time as int, old(self).perf_freq as int),
            ),
    {
        let config = self.device_info.unwrap();
        let scan_time = scan_time(now, self.last_report_time, self.perf_freq);
        self.last_report_time = now;
        build_ptp_report(
            &frame.fingers,
            frame.count,
            frame.button,
            &config,
            self.reporting.ptp_report_touch,
            self.reporting.ptp_report_button,
            scan_time,
        )
    }
}

} // verus!
