//! Decisions of the Bluetooth driver.
//!
//! The Bluetooth driver is a filter in the Magic Trackpad 2's Bluetooth HID
//! stack. It creates a virtual PTP device through the Virtual HID Framework
//! (VHF), switches the trackpad into multitouch mode, keeps one read request
//! outstanding on the transport, turns each raw report into a PTP report for
//! VHF, and retries on a timer when the transport fails. The WDF and VHF
//! calls stay with the driver; this module holds the device's plain-value
//! state and every decision taken between those calls.
use vstd::prelude::*;
use crate::constants::{BT_VENDOR_ID_APPLE, DEVICE_VERSION, DEVICE_VID, PID_MAGIC_TRACKPAD2};
use crate::device::{config_ranges_ok, lemma_lookup_config_ranges_ok, lookup_config, spec_lookup_config, DeviceConfig};
use crate::feature::{ReportingState, SetFeatureRequest};
use crate::finger::spec_parse_report;
use crate::hid::{build_report_descriptor, spec_report_descriptor};
use crate::finger::lemma_parse_in_range;
use crate::input::{
    build_ptp_report, lemma_frame_report_for_raw, lemma_frame_transformable, parse_touch_frame, report_for_raw,
    scan_time, scan_time_uses_delta, spec_scan_time,
};
use crate::ptp::PtpReport;
use crate::wire::{le16_at, le16_value};

verus! {

/// Recovery retry interval in seconds.
pub const RECOVERY_INTERVAL_SEC: i64 = 2;

/// Maximum number of consecutive recovery attempts before giving up.
pub const MAX_RECOVERY_ATTEMPTS: u32 = 10;

/// Buffer size for HID read requests.
pub const REPORT_BUFFER_SIZE: usize = 1024;

/// Report ID of the Bluetooth multitouch activation feature report.
pub const BT_MULTITOUCH_REPORT_ID: u8 = 0xF1;

/// What the driver does after handling a read completion.
#[derive(Debug, Clone, Copy, PartialEq, Eq, Structural)]
pub enum NextStep {
    /// Nothing more.
    Idle,
    /// Issue the next read request.
    ReissueRead,
    /// Start the recovery timer.
    StartRecoveryTimer,
}

/// What a completed read request leads to.
#[derive(Debug, Clone, Copy)]
pub struct ReadOutcome {
    /// The PTP report to submit to VHF, if any.
    pub report: Option<PtpReport>,
    /// What to do once the request is released.
    pub next: NextStep,
}

/// What the recovery timer does after a multitouch activation attempt.
#[derive(Debug, Clone, Copy, PartialEq, Eq, Structural)]
pub enum RecoveryStep {
    /// The activation failed and attempts remain: start the timer again.
    RestartTimer,
    /// The activation failed and no attempts remain.
    GiveUp,
    /// The activation succeeded: resume reporting and issue a read.
    ResumeAndRead,
}

/// The identity and report descriptor of the virtual PTP device.
#[derive(Debug, Clone)]
pub struct VirtualDeviceConfig {
    /// Vendor ID of the virtual device.
    pub vendor_id: u16,
    /// Product ID of the virtual device.
    pub product_id: u16,
    /// Version number of the virtual device.
    pub version_number: u16,
    /// The HID report descriptor of the virtual device.
    pub report_descriptor: Vec<u8>,
}

/// Per-device state of the Bluetooth driver: the plain values the driver
/// keeps beside its WDF and VHF handles.
#[derive(Debug, Clone, Copy)]
pub struct DeviceContext {
    /// Vendor ID of the underlying Apple trackpad.
    pub vendor_id: u16,
    /// Product ID of the underlying Apple trackpad.
    pub product_id: u16,
    /// Device version number.
    pub version_number: u16,
    /// The device configuration, once known.
    pub device_info: Option<DeviceConfig>,
    /// Whether the virtual device is configured and reports flow.
    pub device_configured: bool,
    /// The PTP reporting switches.
    pub reporting: ReportingState,
    /// Performance counter frequency (ticks per second).
    pub perf_freq: i64,
    /// Performance counter value at the last report.
    pub last_report_time: i64,
    /// Whether VHF is ready to accept the next input report.
    pub vhf_ready: bool,
    /// Number of consecutive recovery attempts (reset on success).
    pub recovery_attempts: u32,
}

/// The due time of the recovery timer: [`RECOVERY_INTERVAL_SEC`] seconds
/// from now, as a relative WDF timeout (negative, in 100 ns units).
pub fn recovery_due_time() -> (r: i64)
    ensures
        r == -RECOVERY_INTERVAL_SEC * 10_000_000,
{
    -RECOVERY_INTERVAL_SEC * 10_000_000
}

/// The feature report that switches the Magic Trackpad 2 from mouse mode to
/// raw multitouch mode over Bluetooth: report 0xF1 with data `F1 02 01`.
pub fn multitouch_activation_report() -> (r: (u8, Vec<u8>))
    ensures
        r.0 == BT_MULTITOUCH_REPORT_ID,
        r.1@ == seq![0xF1u8, 0x02u8, 0x01u8],
{
    let mut data: Vec<u8> = Vec::new();
    data.push(0xF1);
    data.push(0x02);
    data.push(0x01);
    assert(data@ =~= seq![0xF1u8, 0x02u8, 0x01u8]);
    (BT_MULTITOUCH_REPORT_ID, data)
}

impl DeviceContext {
    /// The state `init_defaults` establishes.
    pub open spec fn spec_default() -> Self {
        DeviceContext {
            vendor_id: 0,
            product_id: 0,
            version_number: 0,
            device_info: None,
            device_configured: false,
            reporting: ReportingState { ptp_input_on: false, ptp_report_touch: true, ptp_report_button: true },
            perf_freq: 0,
            last_report_time: 0,
            vhf_ready: true,
            recovery_attempts: 0,
        }
    }

    /// The device's configuration, if any, has coordinate limits in range.
    pub open spec fn wf(self) -> bool {
        self.device_info matches Some(c) ==> config_ranges_ok(c)
    }

    /// What follows a failure when reports flow: recovery; otherwise nothing.
    pub open spec fn recover_if_configured(self) -> NextStep {
        if self.device_configured { NextStep::StartRecoveryTimer } else { NextStep::Idle }
    }

    /// What follows a handled read when reports flow: the next read;
    /// otherwise nothing.
    pub open spec fn reissue_if_configured(self) -> NextStep {
        if self.device_configured { NextStep::ReissueRead } else { NextStep::Idle }
    }

    /// A device context with default values: nothing identified, not
    /// configured, PTP input off, touch and button reporting on, VHF ready,
    /// no recovery attempts.
    pub fn new() -> (r: Self)
        ensures
            r == Self::spec_default(),
            r.wf(),
    {
        DeviceContext {
            vendor_id: 0,
            product_id: 0,
            version_number: 0,
            device_info: None,
            device_configured: false,
            reporting: ReportingState::new(),
            perf_freq: 0,
            last_report_time: 0,
            vhf_ready: true,
            recovery_attempts: 0,
        }
    }

    /// Reset this context to its default values.
    pub fn init_defaults(&mut self)
        ensures
            *final(self) == Self::spec_default(),
            final(self).wf(),
    {
        *self = Self::new();
    }

    /// Identify the device as a Magic Trackpad 2 on Bluetooth and describe
    /// the virtual PTP device to create: the driver's own vendor ID, the
    /// trackpad's product ID and version, and the report descriptor built
    /// from the trackpad's coordinate ranges.
    pub fn prepare_virtual_device(&mut self) -> (r: VirtualDeviceConfig)
        ensures
            *final(self) == (DeviceContext {
                device_info: Some(spec_lookup_config(PID_MAGIC_TRACKPAD2)),
                product_id: PID_MAGIC_TRACKPAD2,
                vendor_id: BT_VENDOR_ID_APPLE,
                version_number: DEVICE_VERSION as u16,
                ..*old(self)
            }),
            final(self).wf(),
            r.vendor_id == DEVICE_VID,
            r.product_id == PID_MAGIC_TRACKPAD2,
            r.version_number == DEVICE_VERSION,
            ({
                let c = spec_lookup_config(PID_MAGIC_TRACKPAD2);
                r.report_descriptor@ == spec_report_descriptor(
                    (c.x.max - c.x.min) as u16,
                    (c.y.max - c.y.min) as u16,
                    c.spec_ptp_x_physical_max(),
                    c.spec_ptp_y_physical_max(),
                )
            }),
    {
        let config = lookup_config(PID_MAGIC_TRACKPAD2);
        proof {
            lemma_lookup_config_ranges_ok(PID_MAGIC_TRACKPAD2);
        }
        self.device_info = Some(config);
        self.product_id = PID_MAGIC_TRACKPAD2;
        self.vendor_id = BT_VENDOR_ID_APPLE;
        self.version_number = DEVICE_VERSION as u16;
        let report_descriptor = build_report_descriptor(
            config.ptp_x_logical_max(),
            config.ptp_y_logical_max(),
            config.ptp_x_physical_max(),
            config.ptp_y_physical_max(),
        );
        VirtualDeviceConfig {
            vendor_id: DEVICE_VID,
            product_id: self.product_id,
            version_number: self.version_number,
            report_descriptor,
        }
    }

    /// Reports start (or resume) flowing: record the performance counter's
    /// frequency and value as the origin of the next scan time, and mark the
    /// device configured.
    pub fn start_reporting(&mut self, perf_freq: i64, counter: i64)
        ensures
            *final(self) == (DeviceContext {
                perf_freq,
                last_report_time: counter,
                device_configured: true,
                ..*old(self)
            }),
    {
        self.perf_freq = perf_freq;
        self.last_report_time = counter;
        self.device_configured = true;
    }

    /// Reports stop flowing (suspend or removal): the device is no longer
    /// configured.
    pub fn stop_reporting(&mut self)
        ensures
            *final(self) == (DeviceContext { device_configured: false, ..*old(self) }),
    {
        self.device_configured = false;
    }

    /// Whether a read request may be issued to the transport: the device is
    /// configured and the transport's I/O target exists.
    pub fn can_issue_read(&self, io_target_present: bool) -> (r: bool)
        ensures
            r == (self.device_configured && io_target_present),
    {
        self.device_configured && io_target_present
    }

    /// VHF has consumed the previous report and takes the next one.
    pub fn on_vhf_ready(&mut self)
        ensures
            *final(self) == (DeviceContext { vhf_ready: true, ..*old(self) }),
    {
        self.vhf_ready = true;
    }

    /// Apply an accepted SET_FEATURE request to the reporting switches.
    pub fn set_feature(&mut self, req: SetFeatureRequest)
        ensures
            *final(self) == (DeviceContext { reporting: old(self).reporting.spec_apply(req), ..*old(self) }),
    {
        self.reporting.apply(req);
    }

    /// Whether a completed read with this status and data becomes a PTP
    /// report: the request succeeded, the device is identified, PTP input is
    /// on, and the data is there, not empty, and parses.
    pub open spec fn builds_report(self, status_ok: bool, data: Option<&[u8]>) -> bool {
        &&& status_ok
        &&& self.device_info is Some
        &&& self.reporting.ptp_input_on
        &&& data is Some
        &&& data->Some_0@.len() > 0
        &&& spec_parse_report(
            data->Some_0@,
            self.device_info->Some_0,
            self.device_info->Some_0.trackpad_type.spec_header_size_bt(),
            5,
        ) is Ok
    }

    /// Whether handling a completed read with this status and data measures
    /// the scan time from the counter difference `now - last_report_time`
    /// (which must then fit in `i64`): the read becomes a report, and the
    /// scan time uses the difference.
    pub fn read_uses_counter_delta(&self, status_ok: bool, data: Option<&[u8]>) -> (r: bool)
        requires
            self.wf(),
        ensures
            r == (self.builds_report(status_ok, data)
                && scan_time_uses_delta(self.last_report_time as int, self.perf_freq as int)),
    {
        if !status_ok || !self.reporting.ptp_input_on || self.perf_freq <= 0 || self.last_report_time == 0 {
            return false;
        }
        let config = match self.device_info {
            Some(c) => c,
            None => return false,
        };
        let raw = match data {
            Some(d) => d,
            None => return false,
        };
        if raw.len() == 0 {
            return false;
        }
        let header_size = config.trackpad_type.header_size_bt();
        proof {
            lemma_parse_in_range(raw@, config, header_size, 5);
        }
        parse_touch_frame(raw, &config, header_size).is_ok()
    }

    /// Handle a completed read request.
    ///
    /// `status_ok` tells whether the request succeeded; `data` holds the bytes
    /// it returned, or `None` when its output buffer could not be retrieved;
    /// `now` is the performance counter; `vhf_present` tells whether the
    /// virtual device exists.
    ///
    /// A failed request starts recovery (when configured). Without a device
    /// configuration nothing follows. Without data, or with PTP input off,
    /// the next read is issued (when configured). Data that does not parse
    /// starts recovery (when configured). Otherwise the data becomes a PTP
    /// report stamped with the scan time since the previous one, handed to
    /// VHF when VHF is present and ready (VHF is then no longer ready), and
    /// the next read is issued (when configured).
    pub fn on_read_complete(&mut self, status_ok: bool, data: Option<&[u8]>, now: i64, vhf_present: bool) -> (r: ReadOutcome)
        requires
            old(self).wf(),
            old(self).builds_report(status_ok, data)
                && scan_time_uses_delta(old(self).last_report_time as int, old(self).perf_freq as int)
                ==> i64::MIN <= now - old(self).last_report_time <= i64::MAX,
        ensures
            final(self).wf(),
            ({
                let s = *old(self);
                if !status_ok {
                    r.report is None && r.next == s.recover_if_configured() && *final(self) == s
                } else if s.device_info is None {
                    r.report is None && r.next == NextStep::Idle && *final(self) == s
                } else if data is None || data->Some_0@.len() == 0 || !s.reporting.ptp_input_on {
                    r.report is None && r.next == s.reissue_if_configured() && *final(self) == s
                } else {
                    let raw = data->Some_0@;
                    let c = s.device_info->Some_0;
                    let header = c.trackpad_type.spec_header_size_bt();
                    if spec_parse_report(raw, c, header, 5) is Err {
                        r.report is None && r.next == s.recover_if_configured() && *final(self) == s
                    } else {
                        let submit = vhf_present && s.vhf_ready;
                        &&& *final(self) == (DeviceContext {
                            last_report_time: now,
                            vhf_ready: if submit { false } else { s.vhf_ready },
                            ..s
                        })
                        &&& r.next == s.reissue_if_configured()
                        &&& (r.report is Some <==> submit)
                        &&& (r.report matches Some(rep) ==> report_for_raw(
                            rep,
                            raw,
                            c,
                            header,
                            s.reporting.ptp_report_touch,
                            s.reporting.ptp_report_button,
                            spec_scan_time(now as int, s.last_report_time as int, s.perf_freq as int),
                        ))
                    }
                }
            }),
    {
        if !status_ok {
            // Read failed: schedule recovery
            let next = if self.device_configured { NextStep::StartRecoveryTimer } else { NextStep::Idle };
            return ReadOutcome { report: None, next };
        }
        let config = match self.device_info {
            Some(c) => c,
            None => return ReadOutcome { report: None, next: NextStep::Idle },
        };
        let raw = match data {
            Some(d) => d,
            None => {
                let next = if self.device_configured { NextStep::ReissueRead } else { NextStep::Idle };
                return ReadOutcome { report: None, next };
            },
        };
        // Skip if no data or PTP input mode is not active
        if raw.len() == 0 || !self.reporting.ptp_input_on {
            let next = if self.device_configured { NextStep::ReissueRead } else { NextStep::Idle };
            return ReadOutcome { report: None, next };
        }
        // Parse finger data (BT header = 4 bytes for TYPE5)
        let header_size = config.trackpad_type.header_size_bt();
        proof {
            lemma_parse_in_range(raw@, config, header_size, 5);
        }
        let frame = match parse_touch_frame(raw, &config, header_size) {
            Ok(f) => f,
            Err(_) => {
                // Malformed data: the device may have left multitouch mode
                let next = if self.device_configured { NextStep::StartRecoveryTimer } else { NextStep::Idle };
                return ReadOutcome { report: None, next };
            },
        };
        proof {
            lemma_frame_transformable(frame, raw@, config, header_size);
        }
        let scan_time = scan_time(now, self.last_report_time, self.perf_freq);
        self.last_report_time = now;
        let report = build_ptp_report(
            &frame.fingers,
            frame.count,
            frame.button,
            &config,
            self.reporting.ptp_report_touch,
            self.reporting.ptp_report_button,
            scan_time,
        );
        proof {
            lemma_frame_report_for_raw(
                report, frame, raw@, config, header_size,
                self.reporting.ptp_report_touch, self.reporting.ptp_report_button, scan_time,
            );
        }
        let submit = vhf_present && self.vhf_ready;
        if submit {
            // Not ready again until VHF asks for the next report
            self.vhf_ready = false;
        }
        let next = if self.device_configured { NextStep::ReissueRead } else { NextStep::Idle };
        ReadOutcome { report: if submit { Some(report) } else { None }, next }
    }

    /// VHF took (`ok`) or refused a submitted report. After a refusal VHF is
    /// marked ready again, so reporting does not stall.
    pub fn on_report_submitted(&mut self, ok: bool)
        ensures
            *final(self) == (if ok { *old(self) } else { DeviceContext { vhf_ready: true, ..*old(self) } }),
    {
        if !ok {
            self.vhf_ready = true;
        }
    }

    /// The recovery timer fired. Recovery is skipped while the device is
    /// shutting down or suspended (no I/O target, or not configured);
    /// otherwise it counts one more attempt and the driver tries to activate
    /// multitouch mode (the result is `true`).
    pub fn on_recovery_timer(&mut self, io_target_present: bool) -> (attempt: bool)
        requires
            old(self).recovery_attempts < u32::MAX,
        ensures
            attempt == (io_target_present && old(self).device_configured),
            *final(self) == (if attempt {
                DeviceContext { recovery_attempts: (old(self).recovery_attempts + 1) as u32, ..*old(self) }
            } else {
                *old(self)
            }),
    {
        if !io_target_present || !self.device_configured {
            return false;
        }
        self.recovery_attempts = self.recovery_attempts + 1;
        true
    }

    /// What follows a multitouch activation attempt of the recovery timer:
    /// on success, resume reporting and issue a read; on failure, try again
    /// while fewer than [`MAX_RECOVERY_ATTEMPTS`] attempts were made.
    pub fn on_multitouch_activation(&self, ok: bool) -> (r: RecoveryStep)
        ensures
            r == (if ok {
                RecoveryStep::ResumeAndRead
            } else if self.recovery_attempts < MAX_RECOVERY_ATTEMPTS {
                RecoveryStep::RestartTimer
            } else {
                RecoveryStep::GiveUp
            }),
    {
        if ok {
            RecoveryStep::ResumeAndRead
        } else if self.recovery_attempts < MAX_RECOVERY_ATTEMPTS {
            RecoveryStep::RestartTimer
        } else {
            RecoveryStep::GiveUp
        }
    }

    /// The recovery timer issued a read request: on success the device has
    /// recovered and the attempt count starts over; on failure the timer
    /// restarts (the result is `true`) while attempts remain.
    pub fn on_recovery_read_issued(&mut self, ok: bool) -> (restart_timer: bool)
        ensures
            restart_timer == (!ok && old(self).recovery_attempts < MAX_RECOVERY_ATTEMPTS),
            *final(self) == (if ok { DeviceContext { recovery_attempts: 0, ..*old(self) } } else { *old(self) }),
    {
        if ok {
            self.recovery_attempts = 0;
            false
        } else {
            self.recovery_attempts < MAX_RECOVERY_ATTEMPTS
        }
    }

    /// Record the HID device attributes that the transport reported (the
    /// 32-byte structure: size, vendor ID, product ID, version).
    pub fn on_device_attributes(&mut self, attrs: &[u8])
        requires
            attrs@.len() >= 10,
        ensures
            *final(self) == (DeviceContext {
                vendor_id: le16_at(attrs@, 4) as u16,
                product_id: le16_at(attrs@, 6) as u16,
                version_number: le16_at(attrs@, 8) as u16,
                ..*old(self)
            }),
    {
        self.vendor_id = le16_value(attrs[4], attrs[5]);
        self.product_id = le16_value(attrs[6], attrs[7]);
        self.version_number = le16_value(attrs[8], attrs[9]);
    }
}

} // verus!
