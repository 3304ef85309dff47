//! Windows Precision Touchpad (PTP) report types.
//!
//! These are the HID report structures that Windows expects from a Precision
//! Touchpad device. Multi-byte fields of a contact are held as little-endian
//! byte arrays, so every report type is exactly as large as its wire form;
//! each type's `as_bytes` gives the bytes the HID report descriptor defines.
use vstd::prelude::*;
use crate::constants::{
    PTP_BUTTON_TYPE_CLICK_PAD, PTP_MAX_CONTACT_POINTS, REPORTID_DEVICE_CAPS,
    REPORTID_MULTITOUCH, REPORTID_PTPHQA,
};
use crate::wire::{le16_at, le16_bytes, le16_value, le32_at, le32_bytes, spec_le16_bytes};

verus! {

/// A single finger contact in a PTP input report.
///
/// Layout (9 bytes):
/// - Byte 0: Confidence (bit 0) | TipSwitch (bit 1) | padding (bits 2-7)
/// - Bytes 1-4: Contact ID (u32, LE)
/// - Bytes 5-6: X (u16, LE)
/// - Bytes 7-8: Y (u16, LE)
#[derive(Debug, Clone, Copy, PartialEq, Eq)]
pub struct PtpContact {
    /// Bit 0: Confidence, Bit 1: TipSwitch, Bits 2-7: padding.
    pub flags: u8,
    /// Contact identifier (stable across frames for the same finger), LE.
    pub contact_id: [u8; 4],
    /// X coordinate in PTP logical units, LE.
    pub x: [u8; 2],
    /// Y coordinate in PTP logical units, LE.
    pub y: [u8; 2],
}

impl PtpContact {
    /// The contact identifier.
    pub open spec fn spec_contact_id(self) -> int {
        le32_at(self.contact_id@, 0)
    }

    /// The X coordinate.
    pub open spec fn spec_x(self) -> int {
        le16_at(self.x@, 0)
    }

    /// The Y coordinate.
    pub open spec fn spec_y(self) -> int {
        le16_at(self.y@, 0)
    }

    /// The Confidence bit: bit 0 of the flags.
    pub open spec fn spec_confidence(self) -> bool {
        self.flags % 2 == 1
    }

    /// The TipSwitch bit: bit 1 of the flags.
    pub open spec fn spec_tip_switch(self) -> bool {
        (self.flags / 2) % 2 == 1
    }

    /// The 9 bytes of this contact in a report.
    pub open spec fn spec_bytes(self) -> Seq<u8> {
        seq![self.flags] + self.contact_id@ + self.x@ + self.y@
    }

    /// Create a new contact with the given parameters.
    pub fn new(contact_id: u32, x: u16, y: u16, confidence: bool, tip_switch: bool) -> (r: Self)
        ensures
            r.flags == (if confidence { 1int } else { 0 }) + (if tip_switch { 2int } else { 0 }),
            r.spec_contact_id() == contact_id,
            r.spec_x() == x,
            r.spec_y() == y,
    {
        let c: u8 = if confidence { 1 } else { 0 };
        let t: u8 = if tip_switch { 1 } else { 0 };
        let flags: u8 = c | (t << 1u8);
        assert(flags == c + 2 * t) by (bit_vector)
            requires c <= 1, t <= 1, flags == c | (t << 1u8);
        PtpContact { flags, contact_id: le32_bytes(contact_id), x: le16_bytes(x), y: le16_bytes(y) }
    }

    /// Create an empty (zeroed) contact.
    pub fn empty() -> (r: Self)
        ensures
            r.flags == 0,
            r.contact_id@ == seq![0u8, 0u8, 0u8, 0u8],
            r.x@ == seq![0u8, 0u8],
            r.y@ == seq![0u8, 0u8],
    {
        let r = PtpContact { flags: 0, contact_id: [0, 0, 0, 0], x: [0, 0], y: [0, 0] };
        assert(r.contact_id@ =~= seq![0u8, 0u8, 0u8, 0u8]);
        assert(r.x@ =~= seq![0u8, 0u8]);
        assert(r.y@ =~= seq![0u8, 0u8]);
        r
    }

    /// Whether this contact has the Confidence bit set.
    pub fn confidence(&self) -> (r: bool)
        ensures
            r == (self.flags % 2 == 1),
            r == self.spec_confidence(),
    {
        let f = self.flags;
        assert((f & 0x01 != 0) == (f % 2 == 1)) by (bit_vector);
        self.flags & 0x01 != 0
    }

    /// Whether this contact has the TipSwitch bit set.
    pub fn tip_switch(&self) -> (r: bool)
        ensures
            r == ((self.flags / 2) % 2 == 1),
            r == self.spec_tip_switch(),
    {
        let f = self.flags;
        assert((f & 0x02 != 0) == ((f / 2) % 2 == 1)) by (bit_vector);
        self.flags & 0x02 != 0
    }

    /// The contact identifier.
    pub fn contact_id(&self) -> (r: u32)
        ensures
            r == self.spec_contact_id(),
    {
        let lo = le16_value(self.contact_id[0], self.contact_id[1]);
        let hi = le16_value(self.contact_id[2], self.contact_id[3]);
        let r: u32 = (lo as u32) | ((hi as u32) << 16u32);
        assert(r == lo + 65536 * hi) by (bit_vector)
            requires r == (lo as u32) | ((hi as u32) << 16u32);
        r
    }

    /// The X coordinate.
    pub fn x(&self) -> (r: u16)
        ensures
            r == self.spec_x(),
    {
        le16_value(self.x[0], self.x[1])
    }

    /// The Y coordinate.
    pub fn y(&self) -> (r: u16)
        ensures
            r == self.spec_y(),
    {
        le16_value(self.y[0], self.y[1])
    }

    fn push_bytes(&self, out: &mut Vec<u8>)
        ensures
            final(out)@ == old(out)@ + self.spec_bytes(),
    {
        out.push(self.flags);
        out.push(self.contact_id[0]);
        out.push(self.contact_id[1]);
        out.push(self.contact_id[2]);
        out.push(self.contact_id[3]);
        out.push(self.x[0]);
        out.push(self.x[1]);
        out.push(self.y[0]);
        out.push(self.y[1]);
        assert(out@ =~= old(out)@ + self.spec_bytes());
    }
}

/// Whether a contact is the empty (all-zero) contact.
pub open spec fn is_empty_contact(c: PtpContact) -> bool {
    c.spec_bytes() == seq![0u8, 0u8, 0u8, 0u8, 0u8, 0u8, 0u8, 0u8, 0u8]
}

/// PTP multitouch input report (Report ID 0x05).
///
/// Layout (50 bytes total):
/// - Byte 0: Report ID (0x05)
/// - Bytes 1-45: 5 × PtpContact (9 bytes each)
/// - Bytes 46-47: Scan time (u16 LE, in 100µs units)
/// - Byte 48: Contact count (actual number of fingers)
/// - Byte 49: Button clicked (0 or 1)
#[derive(Debug, Clone, Copy, PartialEq, Eq)]
pub struct PtpReport {
    /// Report ID: always [`REPORTID_MULTITOUCH`] (0x05).
    pub report_id: u8,
    /// Contact data for up to 5 fingers.
    pub contacts: [PtpContact; PTP_MAX_CONTACT_POINTS],
    /// Scan time in 100µs units since the last report.
    pub scan_time: u16,
    /// Number of valid contacts in this report.
    pub contact_count: u8,
    /// Whether the trackpad button is clicked (0 or 1).
    pub is_button_clicked: u8,
}

/// The bytes of the first `n` contacts, in order.
pub open spec fn spec_contacts_bytes(contacts: Seq<PtpContact>, n: int) -> Seq<u8>
    decreases n,
{
    if n <= 0 {
        seq![]
    } else {
        spec_contacts_bytes(contacts, n - 1) + contacts[n - 1].spec_bytes()
    }
}

proof fn lemma_contacts_bytes(contacts: Seq<PtpContact>, n: int)
    requires
        0 <= n <= contacts.len(),
    ensures
        spec_contacts_bytes(contacts, n).len() == 9 * n,
        forall|i: int, k: int| 0 <= i < n && 0 <= k < 9 ==>
            #[trigger] spec_contacts_bytes(contacts, n)[9 * i + k] == #[trigger] contacts[i].spec_bytes()[k],
    decreases n,
{
    if n > 0 {
        lemma_contacts_bytes(contacts, n - 1);
        let prev = spec_contacts_bytes(contacts, n - 1);
        let all = spec_contacts_bytes(contacts, n);
        assert forall|i: int, k: int| 0 <= i < n && 0 <= k < 9 implies
            #[trigger] all[9 * i + k] == #[trigger] contacts[i].spec_bytes()[k] by {
            if i < n - 1 {
                assert(all[9 * i + k] == prev[9 * i + k]);
            } else {
                assert(9 * i + k == 9 * (n - 1) + k);
            }
        }
    }
}

/// Wire layout of a PTP input report: 50 bytes; the report ID first, then
/// contact `i` at bytes `1 + 9i ..= 9 + 9i` (flags, contact ID, X, Y), the
/// scan time (little-endian) at bytes 46-47, the contact count at 48 and the
/// button at 49.
pub proof fn lemma_report_bytes_layout(r: PtpReport)
    ensures
        ({
            let b = r.spec_bytes();
            &&& b.len() == 50
            &&& b[0] == r.report_id
            &&& forall|i: int, k: int| 0 <= i < 5 && 0 <= k < 9 ==>
                #[trigger] b[1 + 9 * i + k] == #[trigger] r.contacts@[i].spec_bytes()[k]
            &&& le16_at(b, 46) == r.scan_time
            &&& b[48] == r.contact_count
            &&& b[49] == r.is_button_clicked
        }),
{
    lemma_contacts_bytes(r.contacts@, 5);
    let b = r.spec_bytes();
    let cb = spec_contacts_bytes(r.contacts@, 5);
    assert forall|i: int, k: int| 0 <= i < 5 && 0 <= k < 9 implies
        #[trigger] b[1 + 9 * i + k] == #[trigger] r.contacts@[i].spec_bytes()[k] by {
        assert(b[1 + 9 * i + k] == cb[9 * i + k]);
    }
    assert(b[46] == r.scan_time % 256 && b[47] == r.scan_time / 256);
}

/// A contact reads back what it was built from: bit 0 of the flags is the
/// confidence and bit 1 the tip switch ([`PtpContact::new`] sets the flags to
/// `confidence + 2 × tip_switch`, which [`PtpContact::confidence`] and
/// [`PtpContact::tip_switch`] read).
pub proof fn lemma_contact_flags_round_trip(confidence: bool, tip_switch: bool)
    ensures
        ({
            let f = (if confidence { 1int } else { 0 }) + (if tip_switch { 2int } else { 0 });
            &&& (f % 2 == 1) == confidence
            &&& ((f / 2) % 2 == 1) == tip_switch
        }),
{
}

impl PtpReport {
    /// The 50 wire bytes of this report.
    pub open spec fn spec_bytes(self) -> Seq<u8> {
        seq![self.report_id] + spec_contacts_bytes(self.contacts@, 5) + spec_le16_bytes(self.scan_time)
            + seq![self.contact_count, self.is_button_clicked]
    }

    /// Create a new empty PTP report with the correct report ID.
    pub fn new() -> (r: Self)
        ensures
            r.report_id == REPORTID_MULTITOUCH,
            forall|i: int| 0 <= i < 5 ==> #[trigger] is_empty_contact(r.contacts@[i]),
            r.scan_time == 0,
            r.contact_count == 0,
            r.is_button_clicked == 0,
    {
        let e = PtpContact::empty();
        let r = PtpReport {
            report_id: REPORTID_MULTITOUCH,
            contacts: [e, e, e, e, e],
            scan_time: 0,
            contact_count: 0,
            is_button_clicked: 0,
        };
        assert(e.spec_bytes() =~= seq![0u8, 0u8, 0u8, 0u8, 0u8, 0u8, 0u8, 0u8, 0u8]);
        r
    }

    /// This report as raw bytes for submission to HID.
    pub fn as_bytes(&self) -> (r: Vec<u8>)
        ensures
            r@ == self.spec_bytes(),
            r@.len() == 50,
    {
        let mut out: Vec<u8> = Vec::new();
        out.push(self.report_id);
        let mut i: usize = 0;
        while i < PTP_MAX_CONTACT_POINTS
            invariant
                0 <= i <= 5,
                out@ == seq![self.report_id] + spec_contacts_bytes(self.contacts@, i as int),
                out@.len() == 1 + 9 * i,
            decreases 5 - i,
        {
            self.contacts[i].push_bytes(&mut out);
            i = i + 1;
        }
        let st = le16_bytes(self.scan_time);
        out.push(st[0]);
        out.push(st[1]);
        out.push(self.contact_count);
        out.push(self.is_button_clicked);
        assert(out@ =~= self.spec_bytes());
        out
    }
}

// ── Feature reports ─────────────────────────────────────────────────

/// Device capabilities feature report (Report ID 0x07).
#[derive(Debug, Clone, Copy, PartialEq, Eq, Structural)]
pub struct PtpDeviceCapsReport {
    /// Report ID: [`REPORTID_DEVICE_CAPS`] (0x07).
    pub report_id: u8,
    /// Maximum number of simultaneous contact points (typically 5).
    pub max_contact_points: u8,
    /// Button type: 0 = clickpad, 1 = pressure pad.
    pub button_type: u8,
}

impl PtpDeviceCapsReport {
    /// Default capabilities: 5 contacts, clickpad.
    pub fn default_clickpad() -> (r: Self)
        ensures
            r == (PtpDeviceCapsReport {
                report_id: REPORTID_DEVICE_CAPS,
                max_contact_points: PTP_MAX_CONTACT_POINTS as u8,
                button_type: PTP_BUTTON_TYPE_CLICK_PAD,
            }),
    {
        PtpDeviceCapsReport {
            report_id: REPORTID_DEVICE_CAPS,
            max_contact_points: PTP_MAX_CONTACT_POINTS as u8,
            button_type: PTP_BUTTON_TYPE_CLICK_PAD,
        }
    }

    /// The 3 wire bytes of this report.
    pub fn as_bytes(&self) -> (r: Vec<u8>)
        ensures
            r@ == seq![self.report_id, self.max_contact_points, self.button_type],
    {
        let mut out: Vec<u8> = Vec::new();
        out.push(self.report_id);
        out.push(self.max_contact_points);
        out.push(self.button_type);
        assert(out@ =~= seq![self.report_id, self.max_contact_points, self.button_type]);
        out
    }
}

/// Input mode feature report (Report ID 0x04).
///
/// Windows writes this to switch between mouse mode and multitouch mode.
#[derive(Debug, Clone, Copy, PartialEq, Eq, Structural)]
pub struct PtpInputModeReport {
    /// Report ID: [`REPORTID_INPUT_MODE`](crate::constants::REPORTID_INPUT_MODE) (0x04).
    pub report_id: u8,
    /// Mode: 0 = mouse, 3 = Windows PTP collection.
    pub mode: u8,
}

/// Selective reporting feature report (Report ID 0x06).
///
/// Controls which sub-reports are active (button and/or surface).
#[derive(Debug, Clone, Copy, PartialEq, Eq, Structural)]
pub struct PtpSelectiveReportingReport {
    /// Report ID: [`REPORTID_FUNC_SWITCH`](crate::constants::REPORTID_FUNC_SWITCH) (0x06).
    pub report_id: u8,
    /// Bit 0: button report enabled, Bit 1: surface report enabled, Bits 2-7: padding.
    pub switches: u8,
}

impl PtpSelectiveReportingReport {
    /// Whether button reporting is enabled (bit 0).
    pub fn button_report_on(&self) -> (r: bool)
        ensures
            r == (self.switches % 2 == 1),
    {
        let s = self.switches;
        assert((s & 0x01 != 0) == (s % 2 == 1)) by (bit_vector);
        self.switches & 0x01 != 0
    }

    /// Whether surface (touch) reporting is enabled (bit 1).
    pub fn surface_report_on(&self) -> (r: bool)
        ensures
            r == ((self.switches / 2) % 2 == 1),
    {
        let s = self.switches;
        assert((s & 0x02 != 0) == ((s / 2) % 2 == 1)) by (bit_vector);
        self.switches & 0x02 != 0
    }
}

/// HQA certification feature report (Report ID 0x08).
///
/// Contains the 256-byte certification blob required by Windows PTP.
#[derive(Debug, Clone, Copy, PartialEq, Eq)]
pub struct PtpHqaCertificationReport {
    /// Report ID: [`REPORTID_PTPHQA`] (0x08).
    pub report_id: u8,
    /// 256-byte HQA certification blob.
    pub blob: [u8; 256],
}

impl PtpHqaCertificationReport {
    /// The 257 wire bytes of this report: the report ID, then the blob.
    pub fn as_bytes(&self) -> (r: Vec<u8>)
        ensures
            r@ == seq![self.report_id] + self.blob@,
    {
        let mut out: Vec<u8> = Vec::new();
        out.push(self.report_id);
        let mut i: usize = 0;
        while i < 256
            invariant
                0 <= i <= 256,
                out@ == seq![self.report_id] + self.blob@.subrange(0, i as int),
            decreases 256 - i,
        {
            out.push(self.blob[i]);
            i = i + 1;
            assert(out@ =~= seq![self.report_id] + self.blob@.subrange(0, i as int));
        }
        assert(self.blob@.subrange(0, 256) =~= self.blob@);
        out
    }
}

/// User-mode app configuration feature report (Report ID 0x09).
///
/// Allows a companion user-mode app to tune pressure/size thresholds.
#[derive(Debug, Clone, Copy, PartialEq, Eq, Structural)]
pub struct PtpUserModeAppConfReport {
    /// Report ID: [`REPORTID_UMAPP_CONF`](crate::constants::REPORTID_UMAPP_CONF) (0x09).
    pub report_id: u8,
    /// Pressure qualification level (0-255).
    pub pressure_qualification_level: u8,
    /// Single-contact size qualification level (0-255).
    pub single_contact_size_level: u8,
    /// Multi-contact size qualification level (0-255).
    pub multi_contact_size_level: u8,
}

} // verus!
