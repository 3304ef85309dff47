//! HID feature reports: what GET_FEATURE answers and what SET_FEATURE asks.
//!
//! Windows reads the device capabilities and the HQA certification blob, and
//! writes the input mode and the selective-reporting switches. The USB and
//! Bluetooth drivers answer the same way; only the transport differs.
use vstd::prelude::*;
use crate::constants::{
    PTP_COLLECTION_WINDOWS, REPORTID_DEVICE_CAPS, REPORTID_FUNC_SWITCH, REPORTID_INPUT_MODE,
    REPORTID_PTPHQA,
};
use crate::hid::DEFAULT_HQA_BLOB;
use crate::ptp::{PtpDeviceCapsReport, PtpHqaCertificationReport, PtpSelectiveReportingReport};

verus! {

/// Why a feature request is refused.
#[derive(Debug, Clone, Copy, PartialEq, Eq, Structural)]
pub enum FeatureError {
    /// The caller's buffer is smaller than the report.
    BufferTooSmall,
    /// The report ID is not one this device serves.
    NotSupported,
}

/// Size in bytes of the device capabilities feature report.
pub const DEVICE_CAPS_REPORT_SIZE: usize = 3;
/// Size in bytes of the HQA certification feature report.
pub const HQA_REPORT_SIZE: usize = 257;
/// Size in bytes of the input mode feature report.
pub const INPUT_MODE_REPORT_SIZE: usize = 2;
/// Size in bytes of the selective reporting feature report.
pub const SELECTIVE_REPORTING_REPORT_SIZE: usize = 2;

/// The bytes of the device capabilities report: 5 contacts, clickpad.
pub open spec fn spec_device_caps_bytes() -> Seq<u8> {
    seq![REPORTID_DEVICE_CAPS, 5u8, 0u8]
}

/// The bytes of the HQA certification report: its ID, then the blob.
pub open spec fn spec_hqa_bytes() -> Seq<u8> {
    seq![REPORTID_PTPHQA] + DEFAULT_HQA_BLOB@
}

/// What GET_FEATURE returns for `report_id` into a buffer of `buffer_len` bytes.
pub open spec fn spec_get_feature(report_id: u8, buffer_len: int) -> Result<Seq<u8>, FeatureError> {
    if report_id == REPORTID_DEVICE_CAPS {
        if buffer_len < DEVICE_CAPS_REPORT_SIZE { Err(FeatureError::BufferTooSmall) } else { Ok(spec_device_caps_bytes()) }
    } else if report_id == REPORTID_PTPHQA {
        if buffer_len < HQA_REPORT_SIZE { Err(FeatureError::BufferTooSmall) } else { Ok(spec_hqa_bytes()) }
    } else {
        Err(FeatureError::NotSupported)
    }
}

/// Handle a GET_FEATURE request: the bytes to copy into the caller's buffer.
///
/// - **Report 0x07** (Device Caps): max contacts = 5, button type = clickpad
/// - **Report 0x08** (HQA): 256-byte certification blob
pub fn get_feature_report(report_id: u8, buffer_len: u32) -> (r: Result<Vec<u8>, FeatureError>)
    ensures
        match (r, spec_get_feature(report_id, buffer_len as int)) {
            (Ok(bytes), Ok(expected)) => bytes@ == expected,
            (Err(e), Err(expected)) => e == expected,
            _ => false,
        },
{
    if report_id == REPORTID_DEVICE_CAPS {
        if (buffer_len as usize) < DEVICE_CAPS_REPORT_SIZE {
            Err(FeatureError::BufferTooSmall)
        } else {
            Ok(PtpDeviceCapsReport::default_clickpad().as_bytes())
        }
    } else if report_id == REPORTID_PTPHQA {
        if (buffer_len as usize) < HQA_REPORT_SIZE {
            Err(FeatureError::BufferTooSmall)
        } else {
            let report = PtpHqaCertificationReport { report_id: REPORTID_PTPHQA, blob: DEFAULT_HQA_BLOB };
            Ok(report.as_bytes())
        }
    } else {
        Err(FeatureError::NotSupported)
    }
}

/// A SET_FEATURE request that the device accepts.
#[derive(Debug, Clone, Copy, PartialEq, Eq, Structural)]
pub enum SetFeatureRequest {
    /// Input mode: `ptp` when Windows selects the PTP collection (mode 3),
    /// otherwise mouse mode.
    InputMode { ptp: bool },
    /// Selective reporting: whether button and surface reports are enabled.
    SelectiveReporting { button: bool, surface: bool },
}

/// What a SET_FEATURE request for `report_id` with buffer `buf` asks.
pub open spec fn spec_set_feature(report_id: u8, buf: Seq<u8>) -> Result<SetFeatureRequest, FeatureError> {
    if report_id == REPORTID_INPUT_MODE {
        if buf.len() < INPUT_MODE_REPORT_SIZE {
            Err(FeatureError::BufferTooSmall)
        } else {
            Ok(SetFeatureRequest::InputMode { ptp: buf[1] == PTP_COLLECTION_WINDOWS })
        }
    } else if report_id == REPORTID_FUNC_SWITCH {
        if buf.len() < SELECTIVE_REPORTING_REPORT_SIZE {
            Err(FeatureError::BufferTooSmall)
        } else {
            Ok(SetFeatureRequest::SelectiveReporting { button: buf[1] % 2 == 1, surface: (buf[1] / 2) % 2 == 1 })
        }
    } else {
        Err(FeatureError::NotSupported)
    }
}

/// Read a SET_FEATURE request from the report ID and the caller's buffer.
///
/// - **Report 0x04** (Input Mode): PTP mode when the mode byte is 3
/// - **Report 0x06** (Selective Reporting): bit 0 button, bit 1 surface
pub fn parse_set_feature(report_id: u8, buf: &[u8]) -> (r: Result<SetFeatureRequest, FeatureError>)
    ensures
        r == spec_set_feature(report_id, buf@),
{
    if report_id == REPORTID_INPUT_MODE {
        if buf.len() < INPUT_MODE_REPORT_SIZE {
            Err(FeatureError::BufferTooSmall)
        } else {
            let mode = buf[1];
            Ok(SetFeatureRequest::InputMode { ptp: mode == PTP_COLLECTION_WINDOWS })
        }
    } else if report_id == REPORTID_FUNC_SWITCH {
        if buf.len() < SELECTIVE_REPORTING_REPORT_SIZE {
            Err(FeatureError::BufferTooSmall)
        } else {
            let report = PtpSelectiveReportingReport { report_id: buf[0], switches: buf[1] };
            Ok(SetFeatureRequest::SelectiveReporting {
                button: report.button_report_on(),
                surface: report.surface_report_on(),
            })
        }
    } else {
        Err(FeatureError::NotSupported)
    }
}

/// The PTP reporting switches that Windows controls through feature reports.
#[derive(Debug, Clone, Copy, PartialEq, Eq, Structural)]
pub struct ReportingState {
    /// Whether PTP input reporting is enabled (mode = Windows PTP).
    pub ptp_input_on: bool,
    /// Whether surface (touch) reporting is enabled.
    pub ptp_report_touch: bool,
    /// Whether button reporting is enabled.
    pub ptp_report_button: bool,
}

impl ReportingState {
    /// The state a device starts in: input off, touch and button reporting on.
    pub fn new() -> (r: Self)
        ensures
            r == (ReportingState { ptp_input_on: false, ptp_report_touch: true, ptp_report_button: true }),
    {
        ReportingState { ptp_input_on: false, ptp_report_touch: true, ptp_report_button: true }
    }

    /// The state after an accepted SET_FEATURE request.
    pub open spec fn spec_apply(self, req: SetFeatureRequest) -> Self {
        match req {
            SetFeatureRequest::InputMode { ptp } => ReportingState { ptp_input_on: ptp, ..self },
            SetFeatureRequest::SelectiveReporting { button, surface } => ReportingState {
                ptp_report_button: button,
                ptp_report_touch: surface,
                ..self
            },
        }
    }

    /// Apply an accepted SET_FEATURE request.
    pub fn apply(&mut self, req: SetFeatureRequest)
        ensures
            *final(self) == old(self).spec_apply(req),
    {
        match req {
            SetFeatureRequest::InputMode { ptp } => {
                self.ptp_input_on = ptp;
            },
            SetFeatureRequest::SelectiveReporting { button, surface } => {
                self.ptp_report_button = button;
                self.ptp_report_touch = surface;
            },
        }
    }
}

} // verus!
