//! HID report descriptor and HQA certification blob.
//!
//! The HID report descriptor defines the PTP touchpad's capabilities to
//! Windows. It matches the report structures in [`crate::ptp`].
//!
//! The HQA blob is a fixed 256-byte certification token required by
//! Windows Precision Touchpad certification.
use vstd::prelude::*;
use crate::constants::{
    HID_USAGE_BUTTON_SWITCH, HID_USAGE_SURFACE_SWITCH, MAX_FINGERS, PTP_MAX_CONTACT_POINTS,
    REPORTID_DEVICE_CAPS, REPORTID_FUNC_SWITCH, REPORTID_INPUT_MODE, REPORTID_MULTITOUCH,
    REPORTID_PTPHQA, REPORTID_UMAPP_CONF,
};
use crate::wire::{le16_bytes, spec_le16_bytes};

verus! {

/// Default PTP HQA certification blob (256 bytes).
pub const DEFAULT_HQA_BLOB: [u8; 256] = [
    0xfc, 0x28, 0xfe, 0x84, 0x40, 0xcb, 0x9a, 0x87,
    0x0d, 0xbe, 0x57, 0x3c, 0xb6, 0x70, 0x09, 0x88,
    0x07, 0x97, 0x2d, 0x2b, 0xe3, 0x38, 0x34, 0xb6,
    0x6c, 0xed, 0xb0, 0xf7, 0xe5, 0x9c, 0xf6, 0xc2,
    0x2e, 0x84, 0x1b, 0xe8, 0xb4, 0x51, 0x78, 0x43,
    0x1f, 0x28, 0x4b, 0x7c, 0x2d, 0x53, 0xaf, 0xfc,
    0x47, 0x70, 0x1b, 0x59, 0x6f, 0x74, 0x43, 0xc4,
    0xf3, 0x47, 0x18, 0x53, 0x1a, 0xa2, 0xa1, 0x71,
    0xc7, 0x95, 0x0e, 0x31, 0x55, 0x21, 0xd3, 0xb5,
    0x1e, 0xe9, 0x0c, 0xba, 0xec, 0xb8, 0x89, 0x19,
    0x3e, 0xb3, 0xaf, 0x75, 0x81, 0x9d, 0x53, 0xb9,
    0x41, 0x57, 0xf4, 0x6d, 0x39, 0x25, 0x29, 0x7c,
    0x87, 0xd9, 0xb4, 0x98, 0x45, 0x7d, 0xa7, 0x26,
    0x9c, 0x65, 0x3b, 0x85, 0x68, 0x89, 0xd7, 0x3b,
    0xbd, 0xff, 0x14, 0x67, 0xf2, 0x2b, 0xf0, 0x2a,
    0x41, 0x54, 0xf0, 0xfd, 0x2c, 0x66, 0x7c, 0xf8,
    0xc0, 0x8f, 0x33, 0x13, 0x03, 0xf1, 0xd3, 0xc1,
    0x0b, 0x89, 0xd9, 0x1b, 0x62, 0xcd, 0x51, 0xb7,
    0x80, 0xb8, 0xaf, 0x3a, 0x10, 0xc1, 0x8a, 0x5b,
    0xe8, 0x8a, 0x56, 0xf0, 0x8c, 0xaa, 0xfa, 0x35,
    0xe9, 0x42, 0xc4, 0xd8, 0x55, 0xc3, 0x38, 0xcc,
    0x2b, 0x53, 0x5c, 0x69, 0x52, 0xd5, 0xc8, 0x73,
    0x02, 0x38, 0x7c, 0x73, 0xb6, 0x41, 0xe7, 0xff,
    0x05, 0xd8, 0x2b, 0x79, 0x9a, 0xe2, 0x34, 0x60,
    0x8f, 0xa3, 0x32, 0x1f, 0x09, 0x78, 0x62, 0xbc,
    0x80, 0xe3, 0x0f, 0xbd, 0x65, 0x20, 0x08, 0x13,
    0xc1, 0xe2, 0xee, 0x53, 0x2d, 0x86, 0x7e, 0xa7,
    0x5a, 0xc5, 0xd3, 0x7d, 0x98, 0xbe, 0x31, 0x48,
    0x1f, 0xfb, 0xda, 0xaf, 0xa2, 0xa8, 0x6a, 0x89,
    0xd6, 0xbf, 0xf2, 0xd3, 0x32, 0x2a, 0x9a, 0xe4,
    0xcf, 0x17, 0xb7, 0xb8, 0xf4, 0xe1, 0x33, 0x08,
    0x24, 0x8b, 0xc4, 0x43, 0xa5, 0xe5, 0x24, 0xc2,
];

// ── HID report descriptor item prefixes ─────────────────────────────

/// Usage Page (1-byte data).
pub const USAGE_PAGE: u8 = 0x05;
/// Usage Page (2-byte data).
pub const USAGE_PAGE_EXT: u8 = 0x06;
/// Usage (1-byte data).
pub const USAGE: u8 = 0x09;
/// Logical Minimum (1-byte data).
pub const LOGICAL_MIN: u8 = 0x15;
/// Logical Maximum (1-byte data).
pub const LOGICAL_MAX: u8 = 0x25;
/// Logical Maximum (2-byte data).
pub const LOGICAL_MAX_16: u8 = 0x26;
/// Logical Maximum (4-byte data).
pub const LOGICAL_MAX_32: u8 = 0x27;
/// Physical Maximum (1-byte data).
pub const PHYSICAL_MAX: u8 = 0x45;
/// Physical Maximum (2-byte data).
pub const PHYSICAL_MAX_16: u8 = 0x46;
/// Physical Maximum (4-byte data).
pub const PHYSICAL_MAX_32: u8 = 0x47;
/// Unit Exponent (1-byte data).
pub const UNIT_EXP: u8 = 0x55;
/// Unit (1-byte data).
pub const UNIT: u8 = 0x65;
/// Unit (2-byte data).
pub const UNIT_16: u8 = 0x66;
/// Report ID.
pub const REPORT_ID: u8 = 0x85;
/// Report Count (1-byte data).
pub const REPORT_COUNT: u8 = 0x95;
/// Report Count (2-byte data).
pub const REPORT_COUNT_16: u8 = 0x96;
/// Report Size.
pub const REPORT_SIZE: u8 = 0x75;
/// Input.
pub const INPUT: u8 = 0x81;
/// Feature.
pub const FEATURE: u8 = 0xb1;
/// Begin Collection.
pub const BEGIN_COLL: u8 = 0xa1;
/// End Collection.
pub const END_COLL: u8 = 0xc0;

/// Length in bytes of the report descriptor that [`build_report_descriptor`] builds.
pub const REPORT_DESCRIPTOR_LEN: usize = 518;

// ── The descriptor, section by section ──────────────────────────────

/// Start of the touch pad collection: Digitizer / Touch Pad / Application,
/// and the multitouch input report ID.
pub open spec fn spec_touchpad_head() -> Seq<u8> {
    seq![USAGE_PAGE, 0x0d, USAGE, 0x05, BEGIN_COLL, 0x01, REPORT_ID, REPORTID_MULTITOUCH]
}

/// Finger collection `i` (of five): Confidence and TipSwitch bits, padding,
/// a 32-bit contact ID, and 16-bit X and Y with the given logical and
/// physical maxima. Fingers 0, 1 and 3 end by resetting the physical
/// maximum and the unit.
pub open spec fn spec_finger_collection(i: int, x_logical_max: u16, y_logical_max: u16, x_physical_max: u16, y_physical_max: u16) -> Seq<u8> {
    seq![
        USAGE_PAGE, 0x0d, USAGE, 0x22, BEGIN_COLL, 0x02,
        LOGICAL_MAX, 0x01, USAGE, 0x47, USAGE, 0x42, REPORT_COUNT, 0x02, REPORT_SIZE, 0x01, INPUT, 0x02,
        REPORT_SIZE, 0x01, REPORT_COUNT, 0x06, INPUT, 0x03,
        REPORT_COUNT, 0x01, REPORT_SIZE, 0x20, LOGICAL_MAX_32, 0xff, 0xff, 0xff, 0xff, USAGE, 0x51, INPUT, 0x02,
        USAGE_PAGE, 0x01, LOGICAL_MAX_16
    ] + spec_le16_bytes(x_logical_max)
        + seq![REPORT_SIZE, 0x10, UNIT_EXP, 0x0e, UNIT, 0x11, USAGE, 0x30, PHYSICAL_MAX_16]
        + spec_le16_bytes(x_physical_max)
        + seq![REPORT_COUNT, 0x01, INPUT, 0x02, PHYSICAL_MAX_16]
        + spec_le16_bytes(y_physical_max)
        + seq![LOGICAL_MAX_16]
        + spec_le16_bytes(y_logical_max)
        + seq![USAGE, 0x31, INPUT, 0x02]
        + (if i == 0 || i == 1 || i == 3 { seq![PHYSICAL_MAX, 0x00, UNIT_EXP, 0x00, UNIT, 0x00] } else { seq![] })
        + seq![END_COLL]
}

/// The first `n` finger collections, in order.
pub open spec fn spec_finger_collections(n: int, x_logical_max: u16, y_logical_max: u16, x_physical_max: u16, y_physical_max: u16) -> Seq<u8>
    decreases n,
{
    if n <= 0 {
        seq![]
    } else {
        spec_finger_collections(n - 1, x_logical_max, y_logical_max, x_physical_max, y_physical_max)
            + spec_finger_collection(n - 1, x_logical_max, y_logical_max, x_physical_max, y_physical_max)
    }
}

/// End of the touch pad collection: scan time, contact count, the button,
/// the device capabilities and HQA feature reports, End Collection.
pub open spec fn spec_touchpad_tail() -> Seq<u8> {
    seq![
        USAGE_PAGE, 0x0d, UNIT_EXP, 0x0c, UNIT_16, 0x01, 0x10,
        PHYSICAL_MAX_32, 0xff, 0xff, 0x00, 0x00, LOGICAL_MAX_32, 0xff, 0xff, 0x00, 0x00,
        USAGE, 0x56, INPUT, 0x02,
        USAGE, 0x54, LOGICAL_MAX, 0x7f, REPORT_SIZE, 0x08, INPUT, 0x02,
        USAGE_PAGE, 0x09, USAGE, 0x01, LOGICAL_MAX, 0x01, REPORT_SIZE, 0x01, INPUT, 0x02,
        REPORT_COUNT, 0x07, INPUT, 0x03,
        USAGE_PAGE, 0x0d, REPORT_ID, REPORTID_DEVICE_CAPS, USAGE, 0x55, USAGE, 0x59,
        LOGICAL_MIN, 0x00, LOGICAL_MAX_16, 0xff, 0x00, REPORT_SIZE, 0x08, REPORT_COUNT, 0x02, FEATURE, 0x02,
        USAGE_PAGE_EXT, 0x00, 0xff, REPORT_ID, REPORTID_PTPHQA, USAGE, 0xc5,
        LOGICAL_MIN, 0x00, LOGICAL_MAX_16, 0xff, 0x00, REPORT_SIZE, 0x08, REPORT_COUNT_16, 0x00, 0x01, FEATURE, 0x02,
        END_COLL
    ]
}

/// The configuration collection: input mode and selective reporting.
pub open spec fn spec_configuration_collection() -> Seq<u8> {
    seq![
        USAGE_PAGE, 0x0d, USAGE, 0x0e, BEGIN_COLL, 0x01,
        REPORT_ID, REPORTID_INPUT_MODE, USAGE, 0x22, BEGIN_COLL, 0x02, USAGE, 0x52,
        LOGICAL_MIN, 0x00, LOGICAL_MAX, MAX_FINGERS as u8, REPORT_SIZE, 0x08, REPORT_COUNT, 0x01, FEATURE, 0x02,
        END_COLL,
        BEGIN_COLL, 0x00, REPORT_ID, REPORTID_FUNC_SWITCH, USAGE, HID_USAGE_BUTTON_SWITCH, USAGE, HID_USAGE_SURFACE_SWITCH,
        REPORT_SIZE, 0x01, REPORT_COUNT, 0x02, LOGICAL_MAX, 0x01, FEATURE, 0x02, REPORT_COUNT, 0x06, FEATURE, 0x03,
        END_COLL,
        END_COLL
    ]
}

/// The vendor collection: the user-mode app configuration feature report.
pub open spec fn spec_vendor_collection() -> Seq<u8> {
    seq![
        USAGE_PAGE_EXT, 0x00, 0xff, USAGE, 0x01, BEGIN_COLL, 0x01, REPORT_ID, REPORTID_UMAPP_CONF,
        USAGE, 0x01, LOGICAL_MIN, 0x00, LOGICAL_MAX_16, 0xff, 0x00, REPORT_SIZE, 0x08, REPORT_COUNT, 0x03, FEATURE, 0x02,
        END_COLL
    ]
}

/// The complete PTP report descriptor: the touch pad collection (five
/// fingers), the configuration collection and the vendor collection.
pub open spec fn spec_report_descriptor(x_logical_max: u16, y_logical_max: u16, x_physical_max: u16, y_physical_max: u16) -> Seq<u8> {
    spec_touchpad_head()
        + spec_finger_collections(5, x_logical_max, y_logical_max, x_physical_max, y_physical_max)
        + spec_touchpad_tail()
        + spec_configuration_collection()
        + spec_vendor_collection()
}

/// Whether `d` holds a Report ID item for report `id` at index `k`.
pub open spec fn has_report_id_at(d: Seq<u8>, k: int, id: u8) -> bool {
    0 <= k && k + 1 < d.len() && d[k] == REPORT_ID && d[k + 1] == id
}

proof fn lemma_finger_collections_len(n: int, xl: u16, yl: u16, xp: u16, yp: u16)
    requires
        0 <= n <= 5,
    ensures
        spec_finger_collections(n, xl, yl, xp, yp).len() == (if n <= 0 { 0 } else if n == 1 { 74int }
            else if n == 2 { 148 } else if n == 3 { 216 } else if n == 4 { 290 } else { 358 }),
    decreases n,
{
    if n > 0 {
        lemma_finger_collections_len(n - 1, xl, yl, xp, yp);
    }
}

/// Shape of the report descriptor, whatever the maxima: it is
/// [`REPORT_DESCRIPTOR_LEN`] bytes long, opens with the Digitizer / Touch Pad
/// application collection, closes with End Collection, and declares each of
/// the six report IDs the driver serves (multitouch input, device caps,
/// HQA, input mode, selective reporting, app configuration).
pub proof fn lemma_report_descriptor_layout(xl: u16, yl: u16, xp: u16, yp: u16)
    ensures
        ({
            let d = spec_report_descriptor(xl, yl, xp, yp);
            &&& d.len() == REPORT_DESCRIPTOR_LEN
            &&& d.subrange(0, 6) == seq![USAGE_PAGE, 0x0d, USAGE, 0x05, BEGIN_COLL, 0x01]
            &&& d[d.len() - 1] == END_COLL
            &&& has_report_id_at(d, 6, REPORTID_MULTITOUCH)
            &&& has_report_id_at(d, 411, REPORTID_DEVICE_CAPS)
            &&& has_report_id_at(d, 431, REPORTID_PTPHQA)
            &&& has_report_id_at(d, 454, REPORTID_INPUT_MODE)
            &&& has_report_id_at(d, 475, REPORTID_FUNC_SWITCH)
            &&& has_report_id_at(d, 502, REPORTID_UMAPP_CONF)
        }),
{
    let fc = spec_finger_collections(5, xl, yl, xp, yp);
    lemma_finger_collections_len(5, xl, yl, xp, yp);
    let head = spec_touchpad_head();
    let tail = spec_touchpad_tail();
    let conf = spec_configuration_collection();
    let vend = spec_vendor_collection();
    let d = spec_report_descriptor(xl, yl, xp, yp);
    assert(head.len() == 8 && tail.len() == 82 && conf.len() == 47 && vend.len() == 23);
    assert(d.subrange(0, 6) =~= seq![USAGE_PAGE, 0x0d, USAGE, 0x05, BEGIN_COLL, 0x01]);
    assert(d[6] == head[6] && d[7] == head[7]);
    assert(d[411] == tail[45] && d[412] == tail[46]);
    assert(d[431] == tail[65] && d[432] == tail[66]);
    assert(d[454] == conf[6] && d[455] == conf[7]);
    assert(d[475] == conf[27] && d[476] == conf[28]);
    assert(d[502] == vend[7] && d[503] == vend[8]);
    assert(d[517] == vend[22]);
}

/// Start of finger collection `j` (of five) in the report descriptor.
pub open spec fn finger_collection_start(j: int) -> int {
    if j == 0 { 8 } else if j == 1 { 82 } else if j == 2 { 156 } else if j == 3 { 224 } else { 298 }
}

/// Length of finger collection `j`: fingers 0, 1 and 3 carry six more bytes.
pub open spec fn finger_collection_len(j: int) -> int {
    if j == 0 || j == 1 || j == 3 { 74 } else { 68 }
}

/// Whether offset `r` inside a finger collection holds a byte of one of the
/// four maxima: X logical (40-41), X physical (51-52), Y physical (58-59)
/// and Y logical (61-62).
pub open spec fn is_maxima_rel(r: int) -> bool {
    r == 40 || r == 41 || r == 51 || r == 52 || r == 58 || r == 59 || r == 61 || r == 62
}

/// Whether offset `k` of the report descriptor holds a byte of a maximum.
pub open spec fn is_maxima_offset(k: int) -> bool {
    is_maxima_rel(k - 8) || is_maxima_rel(k - 82) || is_maxima_rel(k - 156) || is_maxima_rel(k - 224)
        || is_maxima_rel(k - 298)
}

proof fn lemma_finger_collection_maxima(i: int, xl: u16, yl: u16, xp: u16, yp: u16, xl2: u16, yl2: u16, xp2: u16, yp2: u16)
    ensures
        ({
            let c = spec_finger_collection(i, xl, yl, xp, yp);
            let c2 = spec_finger_collection(i, xl2, yl2, xp2, yp2);
            &&& c.len() == c2.len()
            &&& c.len() == finger_collection_len(i)
            &&& c.subrange(40, 42) == spec_le16_bytes(xl)
            &&& c.subrange(51, 53) == spec_le16_bytes(xp)
            &&& c.subrange(58, 60) == spec_le16_bytes(yp)
            &&& c.subrange(61, 63) == spec_le16_bytes(yl)
            &&& c[42] == 0x75 && c[43] == 0x10
            &&& c[48] == 0x09 && c[49] == 0x30
            &&& c[55] == 0x81 && c[56] == 0x02
            &&& c[63] == 0x09 && c[64] == 0x31
            &&& c[65] == 0x81 && c[66] == 0x02
            &&& forall|r: int| 0 <= r < c.len() && !is_maxima_rel(r) ==> #[trigger] c[r] == c2[r]
        }),
{
    let c = spec_finger_collection(i, xl, yl, xp, yp);
    let c2 = spec_finger_collection(i, xl2, yl2, xp2, yp2);
    assert(c.subrange(40, 42) =~= spec_le16_bytes(xl));
    assert(c.subrange(51, 53) =~= spec_le16_bytes(xp));
    assert(c.subrange(58, 60) =~= spec_le16_bytes(yp));
    assert(c.subrange(61, 63) =~= spec_le16_bytes(yl));
}

proof fn lemma_finger_collections_maxima(n: int, xl: u16, yl: u16, xp: u16, yp: u16, xl2: u16, yl2: u16, xp2: u16, yp2: u16)
    requires
        0 <= n <= 5,
    ensures
        ({
            let f = spec_finger_collections(n, xl, yl, xp, yp);
            let f2 = spec_finger_collections(n, xl2, yl2, xp2, yp2);
            &&& f.len() == f2.len()
            &&& f.len() == (if n == 0 { 0 } else { finger_collection_start(n - 1) - 8 + finger_collection_len(n - 1) })
            &&& forall|j: int, r: int| 0 <= j < n && 0 <= r < finger_collection_len(j) ==>
                #[trigger] f[finger_collection_start(j) - 8 + r] == #[trigger] spec_finger_collection(j, xl, yl, xp, yp)[r]
            &&& forall|m: int| 0 <= m < f.len() && !is_maxima_offset(m + 8) ==> #[trigger] f[m] == f2[m]
        }),
    decreases n,
{
    if n > 0 {
        lemma_finger_collections_maxima(n - 1, xl, yl, xp, yp, xl2, yl2, xp2, yp2);
        lemma_finger_collection_maxima(n - 1, xl, yl, xp, yp, xl2, yl2, xp2, yp2);
        let p = spec_finger_collections(n - 1, xl, yl, xp, yp);
        let p2 = spec_finger_collections(n - 1, xl2, yl2, xp2, yp2);
        let c = spec_finger_collection(n - 1, xl, yl, xp, yp);
        let c2 = spec_finger_collection(n - 1, xl2, yl2, xp2, yp2);
        let f = spec_finger_collections(n, xl, yl, xp, yp);
        let f2 = spec_finger_collections(n, xl2, yl2, xp2, yp2);
        assert(f == p + c);
        assert(f2 == p2 + c2);
        assert(p.len() == finger_collection_start(n - 1) - 8);
        assert forall|m: int| 0 <= m < f.len() && !is_maxima_offset(m + 8) implies #[trigger] f[m] == f2[m] by {
            if m >= p.len() {
                assert(!is_maxima_rel(m - p.len()));
                assert(c[m - p.len()] == c2[m - p.len()]);
            } else {
                assert(p[m] == p2[m]);
            }
        }
    }
}

/// Where the maxima go in the report descriptor: in each of the five finger
/// collections (starting at bytes 8, 82, 156, 224 and 298), the X logical
/// maximum at offsets 40-41, the X physical maximum at 51-52, the Y
/// physical maximum at 58-59 and the Y logical maximum at 61-62, all
/// little-endian; every other byte is the same whatever the maxima.
pub proof fn lemma_report_descriptor_maxima(
    xl: u16, yl: u16, xp: u16, yp: u16,
    xl2: u16, yl2: u16, xp2: u16, yp2: u16,
)
    ensures
        ({
            let d = spec_report_descriptor(xl, yl, xp, yp);
            let d2 = spec_report_descriptor(xl2, yl2, xp2, yp2);
            &&& d.len() == REPORT_DESCRIPTOR_LEN
            &&& d2.len() == REPORT_DESCRIPTOR_LEN
            &&& forall|j: int| #![trigger finger_collection_start(j)] 0 <= j < 5 ==> {
                let s = finger_collection_start(j);
                &&& d.subrange(s + 40, s + 42) == spec_le16_bytes(xl)
                &&& d.subrange(s + 51, s + 53) == spec_le16_bytes(xp)
                &&& d.subrange(s + 58, s + 60) == spec_le16_bytes(yp)
                &&& d.subrange(s + 61, s + 63) == spec_le16_bytes(yl)
            }
            &&& forall|k: int| 0 <= k < REPORT_DESCRIPTOR_LEN && !is_maxima_offset(k) ==> #[trigger] d[k] == d2[k]
        }),
{
    lemma_report_descriptor_layout(xl, yl, xp, yp);
    lemma_report_descriptor_layout(xl2, yl2, xp2, yp2);
    lemma_finger_collections_maxima(5, xl, yl, xp, yp, xl2, yl2, xp2, yp2);
    let f = spec_finger_collections(5, xl, yl, xp, yp);
    let f2 = spec_finger_collections(5, xl2, yl2, xp2, yp2);
    let head = spec_touchpad_head();
    let rest = spec_touchpad_tail() + spec_configuration_collection() + spec_vendor_collection();
    let d = spec_report_descriptor(xl, yl, xp, yp);
    let d2 = spec_report_descriptor(xl2, yl2, xp2, yp2);
    assert(d =~= head + f + rest);
    assert(d2 =~= head + f2 + rest);
    assert forall|j: int| #![trigger finger_collection_start(j)] 0 <= j < 5 implies {
        let s = finger_collection_start(j);
        &&& d.subrange(s + 40, s + 42) == spec_le16_bytes(xl)
        &&& d.subrange(s + 51, s + 53) == spec_le16_bytes(xp)
        &&& d.subrange(s + 58, s + 60) == spec_le16_bytes(yp)
        &&& d.subrange(s + 61, s + 63) == spec_le16_bytes(yl)
    } by {
        let s = finger_collection_start(j);
        let c = spec_finger_collection(j, xl, yl, xp, yp);
        lemma_finger_collection_maxima(j, xl, yl, xp, yp, xl2, yl2, xp2, yp2);
        assert forall|r: int| 0 <= r < finger_collection_len(j) implies d[s + r] == #[trigger] c[r] by {
            assert(f[s - 8 + r] == c[r]);
        }
        assert(d.subrange(s + 40, s + 42) =~= c.subrange(40, 42));
        assert(d.subrange(s + 51, s + 53) =~= c.subrange(51, 53));
        assert(d.subrange(s + 58, s + 60) =~= c.subrange(58, 60));
        assert(d.subrange(s + 61, s + 63) =~= c.subrange(61, 63));
    }
    assert forall|k: int| 0 <= k < REPORT_DESCRIPTOR_LEN && !is_maxima_offset(k) implies #[trigger] d[k] == d2[k] by {
        if 8 <= k < 366 {
            assert(f[k - 8] == f2[k - 8]);
        }
    }
}

/// The coordinate fields of every finger collection: after a Report Size
/// of 16 bits (bytes 42-43 of the collection: 0x75 0x10), the first 16-bit
/// input field is declared Generic Desktop X (Usage 0x30 at bytes 48-49,
/// Input at 55-56) and the second Y (Usage 0x31 at bytes 63-64, Input at
/// 65-66), in the order a contact carries them on the wire: X at bytes 5-6,
/// Y at bytes 7-8.
pub proof fn lemma_report_descriptor_axes(xl: u16, yl: u16, xp: u16, yp: u16)
    ensures
        ({
            let d = spec_report_descriptor(xl, yl, xp, yp);
            forall|j: int| #![trigger finger_collection_start(j)] 0 <= j < 5 ==> {
                let s = finger_collection_start(j);
                &&& d[s + 42] == 0x75 && d[s + 43] == 0x10
                &&& d[s + 48] == 0x09 && d[s + 49] == 0x30
                &&& d[s + 55] == 0x81 && d[s + 56] == 0x02
                &&& d[s + 63] == 0x09 && d[s + 64] == 0x31
                &&& d[s + 65] == 0x81 && d[s + 66] == 0x02
            }
        }),
{
    lemma_finger_collections_maxima(5, xl, yl, xp, yp, xl, yl, xp, yp);
    let f = spec_finger_collections(5, xl, yl, xp, yp);
    let head = spec_touchpad_head();
    let rest = spec_touchpad_tail() + spec_configuration_collection() + spec_vendor_collection();
    let d = spec_report_descriptor(xl, yl, xp, yp);
    assert(d =~= head + f + rest);
    assert forall|j: int| #![trigger finger_collection_start(j)] 0 <= j < 5 implies {
        let s = finger_collection_start(j);
        &&& d[s + 42] == 0x75 && d[s + 43] == 0x10
        &&& d[s + 48] == 0x09 && d[s + 49] == 0x30
        &&& d[s + 55] == 0x81 && d[s + 56] == 0x02
        &&& d[s + 63] == 0x09 && d[s + 64] == 0x31
        &&& d[s + 65] == 0x81 && d[s + 66] == 0x02
    } by {
        let s = finger_collection_start(j);
        let c = spec_finger_collection(j, xl, yl, xp, yp);
        lemma_finger_collection_maxima(j, xl, yl, xp, yp, xl, yl, xp, yp);
        assert forall|r: int| 0 <= r < finger_collection_len(j) implies d[s + r] == #[trigger] c[r] by {
            assert(f[s - 8 + r] == c[r]);
        }
        assert(d[s + 42] == c[42] && d[s + 43] == c[43]);
        assert(d[s + 48] == c[48] && d[s + 49] == c[49]);
        assert(d[s + 55] == c[55] && d[s + 56] == c[56]);
        assert(d[s + 63] == c[63] && d[s + 64] == c[64]);
        assert(d[s + 65] == c[65] && d[s + 66] == c[66]);
    }
}

/// Appends `s` to `d`.
fn put(d: &mut Vec<u8>, s: &[u8])
    ensures
        final(d)@ == old(d)@ + s@,
{
    let mut i: usize = 0;
    while i < s.len()
        invariant
            0 <= i <= s@.len(),
            d@ == old(d)@ + s@.subrange(0, i as int),
        decreases s@.len() - i,
    {
        d.push(s[i]);
        i = i + 1;
        assert(d@ =~= old(d)@ + s@.subrange(0, i as int));
    }
    assert(s@.subrange(0, s@.len() as int) =~= s@);
}

fn put_finger_collection(d: &mut Vec<u8>, i: usize, x_logical_max: u16, y_logical_max: u16, x_physical_max: u16, y_physical_max: u16)
    ensures
        final(d)@ == old(d)@ + spec_finger_collection(i as int, x_logical_max, y_logical_max, x_physical_max, y_physical_max),
{
    let xl = le16_bytes(x_logical_max);
    let yl = le16_bytes(y_logical_max);
    let xp = le16_bytes(x_physical_max);
    let yp = le16_bytes(y_physical_max);
    put(d, &[
        USAGE_PAGE, 0x0d, USAGE, 0x22, BEGIN_COLL, 0x02,
        LOGICAL_MAX, 0x01, USAGE, 0x47, USAGE, 0x42, REPORT_COUNT, 0x02, REPORT_SIZE, 0x01, INPUT, 0x02,
        REPORT_SIZE, 0x01, REPORT_COUNT, 0x06, INPUT, 0x03,
        REPORT_COUNT, 0x01, REPORT_SIZE, 0x20, LOGICAL_MAX_32, 0xff, 0xff, 0xff, 0xff, USAGE, 0x51, INPUT, 0x02,
        USAGE_PAGE, 0x01, LOGICAL_MAX_16, xl[0], xl[1],
        REPORT_SIZE, 0x10, UNIT_EXP, 0x0e, UNIT, 0x11, USAGE, 0x30, PHYSICAL_MAX_16, xp[0], xp[1],
        REPORT_COUNT, 0x01, INPUT, 0x02, PHYSICAL_MAX_16, yp[0], yp[1],
        LOGICAL_MAX_16, yl[0], yl[1], USAGE, 0x31, INPUT, 0x02,
    ]);
    if i == 0 || i == 1 || i == 3 {
        put(d, &[PHYSICAL_MAX, 0x00, UNIT_EXP, 0x00, UNIT, 0x00]);
    }
    put(d, &[END_COLL]);
    assert(d@ =~= old(d)@ + spec_finger_collection(i as int, x_logical_max, y_logical_max, x_physical_max, y_physical_max));
}

/// Build the complete HID report descriptor for Magic Trackpad 2.
///
/// The descriptor contains three top-level collections (TLCs):
/// 1. **Digitizer: Touch Pad** — multitouch input + device caps + HQA
/// 2. **Digitizer: Configuration** — input mode + selective reporting
/// 3. **Vendor: App Config** — user-mode app tuning parameters
///
/// The logical and physical maxima of X and Y are taken from the arguments.
pub fn build_report_descriptor(
    x_logical_max: u16,
    y_logical_max: u16,
    x_physical_max: u16,
    y_physical_max: u16,
) -> (d: Vec<u8>)
    ensures
        d@ == spec_report_descriptor(x_logical_max, y_logical_max, x_physical_max, y_physical_max),
        d@.len() == REPORT_DESCRIPTOR_LEN,
{
    let mut d: Vec<u8> = Vec::new();
    put(&mut d, &[USAGE_PAGE, 0x0d, USAGE, 0x05, BEGIN_COLL, 0x01, REPORT_ID, REPORTID_MULTITOUCH]);
    assert(d@ =~= spec_touchpad_head());

    let mut i: usize = 0;
    while i < PTP_MAX_CONTACT_POINTS
        invariant
            0 <= i <= 5,
            d@ == spec_touchpad_head() + spec_finger_collections(i as int, x_logical_max, y_logical_max, x_physical_max, y_physical_max),
        decreases 5 - i,
    {
        put_finger_collection(&mut d, i, x_logical_max, y_logical_max, x_physical_max, y_physical_max);
        i = i + 1;
        assert(d@ =~= spec_touchpad_head() + spec_finger_collections(i as int, x_logical_max, y_logical_max, x_physical_max, y_physical_max));
    }

    put(&mut d, &[
        USAGE_PAGE, 0x0d, UNIT_EXP, 0x0c, UNIT_16, 0x01, 0x10,
        PHYSICAL_MAX_32, 0xff, 0xff, 0x00, 0x00, LOGICAL_MAX_32, 0xff, 0xff, 0x00, 0x00,
        USAGE, 0x56, INPUT, 0x02,
        USAGE, 0x54, LOGICAL_MAX, 0x7f, REPORT_SIZE, 0x08, INPUT, 0x02,
        USAGE_PAGE, 0x09, USAGE, 0x01, LOGICAL_MAX, 0x01, REPORT_SIZE, 0x01, INPUT, 0x02,
        REPORT_COUNT, 0x07, INPUT, 0x03,
        USAGE_PAGE, 0x0d, REPORT_ID, REPORTID_DEVICE_CAPS, USAGE, 0x55, USAGE, 0x59,
        LOGICAL_MIN, 0x00, LOGICAL_MAX_16, 0xff, 0x00, REPORT_SIZE, 0x08, REPORT_COUNT, 0x02, FEATURE, 0x02,
        USAGE_PAGE_EXT, 0x00, 0xff, REPORT_ID, REPORTID_PTPHQA, USAGE, 0xc5,
        LOGICAL_MIN, 0x00, LOGICAL_MAX_16, 0xff, 0x00, REPORT_SIZE, 0x08, REPORT_COUNT_16, 0x00, 0x01, FEATURE, 0x02,
        END_COLL,
    ]);
    put(&mut d, &[
        USAGE_PAGE, 0x0d, USAGE, 0x0e, BEGIN_COLL, 0x01,
        REPORT_ID, REPORTID_INPUT_MODE, USAGE, 0x22, BEGIN_COLL, 0x02, USAGE, 0x52,
        LOGICAL_MIN, 0x00, LOGICAL_MAX, MAX_FINGERS as u8, REPORT_SIZE, 0x08, REPORT_COUNT, 0x01, FEATURE, 0x02,
        END_COLL,
        BEGIN_COLL, 0x00, REPORT_ID, REPORTID_FUNC_SWITCH, USAGE, HID_USAGE_BUTTON_SWITCH, USAGE, HID_USAGE_SURFACE_SWITCH,
        REPORT_SIZE, 0x01, REPORT_COUNT, 0x02, LOGICAL_MAX, 0x01, FEATURE, 0x02, REPORT_COUNT, 0x06, FEATURE, 0x03,
        END_COLL,
        END_COLL,
    ]);
    put(&mut d, &[
        USAGE_PAGE_EXT, 0x00, 0xff, USAGE, 0x01, BEGIN_COLL, 0x01, REPORT_ID, REPORTID_UMAPP_CONF,
        USAGE, 0x01, LOGICAL_MIN, 0x00, LOGICAL_MAX_16, 0xff, 0x00, REPORT_SIZE, 0x08, REPORT_COUNT, 0x03, FEATURE, 0x02,
        END_COLL,
    ]);
    assert(d@ =~= spec_report_descriptor(x_logical_max, y_logical_max, x_physical_max, y_physical_max));
    proof {
        lemma_report_descriptor_layout(x_logical_max, y_logical_max, x_physical_max, y_physical_max);
    }
    d
}

} // verus!
