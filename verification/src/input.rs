//! Building PTP input reports from parsed fingers, and the scan time.
//!
//! Both drivers turn one raw trackpad report into one PTP input report: they
//! parse the fingers, measure the time since the previous report, and fill
//! the contacts.
use vstd::prelude::*;
use crate::constants::{PTP_MAX_CONTACT_POINTS, REPORTID_MULTITOUCH};
use crate::device::DeviceConfig;
use crate::device::config_ranges_ok;
use crate::error::Error;
use crate::finger::{
    finger_transformable, legacy_y_in_range, lemma_parse_in_range, parse_report, spec_parse_report,
    spec_ptp_x, spec_ptp_y, spec_report_finger, Finger,
};
use crate::ptp::{is_empty_contact, PtpContact, PtpReport};

verus! {

/// Scan time of a report, in 100 µs units, from the performance counter at
/// this report (`now`) and at the previous one (`last`), and the counter's
/// frequency. Without a known frequency (not positive) or a previous counter
/// value (zero) it is 0. Otherwise a negative delta counts as zero, and the
/// time is `delta × 10000 / frequency` (the product saturating at
/// `i64::MAX`), capped at 0xFFFF.
pub open spec fn spec_scan_time(now: int, last: int, perf_freq: int) -> u16 {
    if perf_freq <= 0 || last == 0 {
        0
    } else {
        let d = if now - last < 0 { 0 } else { now - last };
        let p = d * 10000;
        let t = (if p > i64::MAX { i64::MAX as int } else { p }) / perf_freq;
        if t > 0xFFFF { 0xFFFF } else { t as u16 }
    }
}

/// Whether the scan time subtracts the previous counter value from the
/// current one: with a known frequency and a previous counter value.
pub open spec fn scan_time_uses_delta(last: int, perf_freq: int) -> bool {
    perf_freq > 0 && last != 0
}

/// Scan time of a report (in 100 µs units) from the performance counter at
/// this report and at the previous one, and its frequency.
pub fn scan_time(current_time: i64, last_report_time: i64, perf_freq: i64) -> (r: u16)
    requires
        scan_time_uses_delta(last_report_time as int, perf_freq as int)
            ==> i64::MIN <= current_time - last_report_time <= i64::MAX,
    ensures
        r == spec_scan_time(current_time as int, last_report_time as int, perf_freq as int),
{
    if perf_freq <= 0 || last_report_time == 0 {
        return 0;
    }
    let diff: i64 = current_time - last_report_time;
    let delta_ticks: i64 = if diff < 0 { 0 } else { diff };
    // delta_ticks × 10000, saturating at i64::MAX (delta_ticks ≥ 0)
    let p: i64 = if delta_ticks > i64::MAX / 10_000 { i64::MAX } else { delta_ticks * 10_000 };
    let delta: i64 = p / perf_freq;
    if delta > 0xFFFF { 0xFFFF } else { delta as u16 }
}

/// Whether the PTP contact `c` reports finger `f` of a device with
/// configuration `config`: its contact ID, its transformed coordinates, its
/// confidence and its tip switch.
pub open spec fn contact_reports_finger(c: PtpContact, f: Finger, config: DeviceConfig) -> bool {
    &&& c.spec_contact_id() == f.contact_id
    &&& c.spec_x() == spec_ptp_x(f, config)
    &&& c.spec_y() == spec_ptp_y(f, config)
    &&& c.flags == (if 2 * f.touch_minor < 345 && 2 * f.touch_major < 345 { 1int } else { 0 })
        + (if f.touch_major != 0 { 2int } else { 0 })
}

/// Transforming each of the first `count` fingers stays within `i32`.
pub open spec fn fingers_transformable(fingers: Seq<Finger>, count: int, config: DeviceConfig) -> bool {
    forall|i: int| 0 <= i < count ==> finger_transformable(#[trigger] fingers[i], config)
}

/// The PTP input report for one frame: report ID 0x05, the scan time, the
/// finger count, the button (when button reporting is on) and, when surface
/// reporting is on, one contact per finger; the other contacts stay empty.
pub open spec fn report_for_frame(
    r: PtpReport,
    fingers: Seq<Finger>,
    count: int,
    button: bool,
    config: DeviceConfig,
    report_touch: bool,
    report_button: bool,
    scan_time: u16,
) -> bool {
    &&& r.report_id == REPORTID_MULTITOUCH
    &&& r.scan_time == scan_time
    &&& r.contact_count == count
    &&& r.is_button_clicked == (if report_button && button { 1int } else { 0 })
    &&& forall|i: int| #![trigger r.contacts@[i]]
        0 <= i < 5 ==> if report_touch && i < count {
            contact_reports_finger(r.contacts@[i], fingers[i], config)
        } else {
            is_empty_contact(r.contacts@[i])
        }
}

fn contact_for_slot(
    fingers: &[Finger],
    i: usize,
    count: usize,
    config: &DeviceConfig,
    report_touch: bool,
) -> (c: PtpContact)
    requires
        count <= fingers@.len(),
        report_touch ==> fingers_transformable(fingers@, count as int, *config),
    ensures
        if report_touch && i < count {
            contact_reports_finger(c, fingers@[i as int], *config)
        } else {
            is_empty_contact(c)
        },
{
    if report_touch && i < count {
        let f = &fingers[i];
        assert(finger_transformable(fingers@[i as int], *config));
        let (x, y) = f.transform_to_ptp(config);
        PtpContact::new(f.contact_id as u32, x, y, f.is_confident(), f.is_tip_switch())
    } else {
        let e = PtpContact::empty();
        assert(e.spec_bytes() =~= seq![0u8, 0u8, 0u8, 0u8, 0u8, 0u8, 0u8, 0u8, 0u8]);
        e
    }
}

/// Build the PTP input report for one frame of `count` parsed fingers.
///
/// The report carries the scan time and the finger count; the button is
/// reported clicked only when button reporting is on, and the contacts are
/// filled only when surface reporting is on.
pub fn build_ptp_report(
    fingers: &[Finger],
    count: usize,
    button: bool,
    config: &DeviceConfig,
    report_touch: bool,
    report_button: bool,
    scan_time: u16,
) -> (r: PtpReport)
    requires
        count <= PTP_MAX_CONTACT_POINTS,
        count <= fingers@.len(),
        report_touch ==> fingers_transformable(fingers@, count as int, *config),
    ensures
        report_for_frame(r, fingers@, count as int, button, *config, report_touch, report_button, scan_time),
{
    let c0 = contact_for_slot(fingers, 0, count, config, report_touch);
    let c1 = contact_for_slot(fingers, 1, count, config, report_touch);
    let c2 = contact_for_slot(fingers, 2, count, config, report_touch);
    let c3 = contact_for_slot(fingers, 3, count, config, report_touch);
    let c4 = contact_for_slot(fingers, 4, count, config, report_touch);
    let mut report = PtpReport::new();
    report.scan_time = scan_time;
    report.contact_count = count as u8;
    if report_button && button {
        report.is_button_clicked = 1;
    }
    report.contacts = [c0, c1, c2, c3, c4];
    assert(report.contacts@[0] == c0 && report.contacts@[1] == c1 && report.contacts@[2] == c2
        && report.contacts@[3] == c3 && report.contacts@[4] == c4);
    report
}


/// The fingers and button state of one raw trackpad report.
#[derive(Debug, Clone, Copy)]
pub struct TouchFrame {
    /// Parsed fingers; the first `count` are valid, the rest are zeroed.
    pub fingers: [Finger; PTP_MAX_CONTACT_POINTS],
    /// Number of fingers parsed (at most [`PTP_MAX_CONTACT_POINTS`]).
    pub count: usize,
    /// Whether the trackpad button is pressed.
    pub button: bool,
}

/// The all-zero finger.
pub open spec fn spec_zero_finger() -> Finger {
    Finger { raw_x: 0, raw_y: 0, touch_major: 0, touch_minor: 0, size: 0, pressure: 0, contact_id: 0, orientation: 0 }
}

/// Whether `frame` is what parsing `report` yields: the count and button
/// that [`parse_report`] returns for a five-finger buffer, the parsed fingers
/// first, zeroed fingers after them.
pub open spec fn frame_of_report(frame: TouchFrame, report: Seq<u8>, config: DeviceConfig, header_size: usize) -> bool {
    &&& spec_parse_report(report, config, header_size, 5) == Ok::<(usize, bool), Error>((frame.count, frame.button))
    &&& forall|i: int| #![trigger frame.fingers@[i]]
        0 <= i < 5 ==> frame.fingers@[i] == (if i < frame.count {
            spec_report_finger(report, config, header_size, i)
        } else {
            spec_zero_finger()
        })
}

/// Parse one raw trackpad report into a frame of at most five fingers.
///
/// The precondition is that of [`parse_report`]: for TYPE2-4 devices,
/// inverting the Y of each parsed finger stays within `i32`.
pub fn parse_touch_frame(raw: &[u8], config: &DeviceConfig, header_size: usize) -> (r: Result<TouchFrame, Error>)
    requires
        config.trackpad_type is Type5 || legacy_y_in_range(raw@, *config, header_size, 5),
    ensures
        match r {
            Ok(frame) => frame_of_report(frame, raw@, *config, header_size)
                && frame.count <= PTP_MAX_CONTACT_POINTS,
            Err(e) => spec_parse_report(raw@, *config, header_size, 5) == Err::<(usize, bool), Error>(e),
        },
{
    let z = Finger { raw_x: 0, raw_y: 0, touch_major: 0, touch_minor: 0, size: 0, pressure: 0, contact_id: 0, orientation: 0 };
    let mut fingers: [Finger; PTP_MAX_CONTACT_POINTS] = [z, z, z, z, z];
    match parse_report(raw, config, header_size, &mut fingers) {
        Ok((count, button)) => {
            let frame = TouchFrame { fingers, count, button };
            Ok(frame)
        },
        Err(e) => Err(e),
    }
}


/// The fingers that parsing `report` yields, block by block (only the
/// first `count` of them are reported).
pub open spec fn spec_report_fingers(report: Seq<u8>, config: DeviceConfig, header_size: usize) -> Seq<Finger> {
    Seq::new(5, |i: int| spec_report_finger(report, config, header_size, i))
}

/// Whether `r` is the PTP input report for raw trackpad report `raw`: the
/// raw report parses, and `r` reports its fingers and button under the given
/// reporting switches and scan time.
pub open spec fn report_for_raw(
    r: PtpReport,
    raw: Seq<u8>,
    config: DeviceConfig,
    header_size: usize,
    report_touch: bool,
    report_button: bool,
    scan_time: u16,
) -> bool {
    match spec_parse_report(raw, config, header_size, 5) {
        Ok((count, button)) => report_for_frame(
            r,
            spec_report_fingers(raw, config, header_size),
            count as int,
            button,
            config,
            report_touch,
            report_button,
            scan_time,
        ),
        Err(_) => false,
    }
}

/// With coordinate limits in range, every finger of a frame parsed from a
/// raw report can be transformed to PTP coordinates.
pub proof fn lemma_frame_transformable(frame: TouchFrame, raw: Seq<u8>, config: DeviceConfig, header_size: usize)
    requires
        config_ranges_ok(config),
        frame_of_report(frame, raw, config, header_size),
    ensures
        fingers_transformable(frame.fingers@, frame.count as int, config),
{
    lemma_parse_in_range(raw, config, header_size, 5);
    assert forall|i: int| 0 <= i < frame.count implies finger_transformable(#[trigger] frame.fingers@[i], config) by {
        assert(frame.fingers@[i] == spec_report_finger(raw, config, header_size, i));
    }
}

/// Each contact of a PTP input report reads back the finger it reports:
/// its contact ID, its X (the raw X's offset from the X minimum, clamped at
/// zero), its Y (for TYPE5 the raw Y's offset from the Y minimum; for
/// TYPE2-4 the Y parsing already inverted; clamped at zero), a Confidence bit that is set exactly when both touch axes are at
/// most 172 (twice the axis below 345), and a TipSwitch bit that is set
/// exactly when the major touch axis is not zero. Contacts past the finger
/// count, or all of them with surface reporting off, are empty.
pub proof fn lemma_report_contacts_read_back(
    r: PtpReport,
    fingers: Seq<Finger>,
    count: int,
    button: bool,
    config: DeviceConfig,
    report_touch: bool,
    report_button: bool,
    scan_time: u16,
)
    requires
        report_for_frame(r, fingers, count, button, config, report_touch, report_button, scan_time),
    ensures
        forall|i: int| #![trigger r.contacts@[i]] 0 <= i < 5 ==> {
            let c = r.contacts@[i];
            let f = fingers[i];
            if report_touch && i < count {
                &&& c.spec_confidence() == (f.touch_minor <= 172 && f.touch_major <= 172)
                &&& c.spec_tip_switch() == (f.touch_major != 0)
                &&& c.spec_contact_id() == f.contact_id
                &&& c.spec_x() == (if f.raw_x < config.x.min { 0int } else { ((f.raw_x - config.x.min) as u16) as int })
                &&& c.spec_y() == (if config.trackpad_type is Type5 {
                    if f.raw_y < config.y.min { 0int } else { ((f.raw_y - config.y.min) as u16) as int }
                } else {
                    if f.raw_y < 0 { 0int } else { (f.raw_y as u16) as int }
                })
            } else {
                &&& c.flags == 0
                &&& !c.spec_confidence()
                &&& !c.spec_tip_switch()
            }
        },
{
    assert forall|i: int| #![trigger r.contacts@[i]] 0 <= i < 5 implies {
        let c = r.contacts@[i];
        let f = fingers[i];
        if report_touch && i < count {
            &&& c.spec_confidence() == (f.touch_minor <= 172 && f.touch_major <= 172)
            &&& c.spec_tip_switch() == (f.touch_major != 0)
            &&& c.spec_contact_id() == f.contact_id
            &&& c.spec_x() == (if f.raw_x < config.x.min { 0int } else { ((f.raw_x - config.x.min) as u16) as int })
            &&& c.spec_y() == (if config.trackpad_type is Type5 {
                if f.raw_y < config.y.min { 0int } else { ((f.raw_y - config.y.min) as u16) as int }
            } else {
                if f.raw_y < 0 { 0int } else { (f.raw_y as u16) as int }
            })
        } else {
            &&& c.flags == 0
            &&& !c.spec_confidence()
            &&& !c.spec_tip_switch()
        }
    } by {
        let c = r.contacts@[i];
        if !(report_touch && i < count) {
            assert(c.spec_bytes()[0] == c.flags);
        }
    }
}

/// A report built from a parsed frame is the report for the raw data.
pub proof fn lemma_frame_report_for_raw(
    r: PtpReport,
    frame: TouchFrame,
    raw: Seq<u8>,
    config: DeviceConfig,
    header_size: usize,
    report_touch: bool,
    report_button: bool,
    scan_time: u16,
)
    requires
        frame_of_report(frame, raw, config, header_size),
        report_for_frame(r, frame.fingers@, frame.count as int, frame.button, config, report_touch, report_button, scan_time),
    ensures
        report_for_raw(r, raw, config, header_size, report_touch, report_button, scan_time),
{
    let fs = spec_report_fingers(raw, config, header_size);
    assert forall|i: int| #![trigger r.contacts@[i]]
        0 <= i < 5 implies (if report_touch && i < frame.count {
            contact_reports_finger(r.contacts@[i], fs[i], config)
        } else {
            is_empty_contact(r.contacts@[i])
        }) by {
        if report_touch && i < frame.count {
            assert(frame.fingers@[i] == fs[i]);
        }
    }
}

} // verus!
