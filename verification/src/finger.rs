//! Raw Apple finger data types and coordinate extraction.
//!
//! Apple trackpads send touch data in device-specific packed formats.
//! This module handles TYPE5 (Magic Trackpad 2) and TYPE2-4 (Wellspring/T2)
//! finger data extraction.
//!
//! TYPE5 layout (9 bytes): bytes 0-3 pack a 13-bit signed X in bits 0-12 and
//! a 13-bit signed Y in bits 13-25 (Y is reported negated); byte 4 is the touch
//! major axis, byte 5 the touch minor axis, byte 6 the tool size, byte 7 the
//! pressure, and byte 8 holds the contact ID (low nibble) and the orientation
//! (high nibble).
use vstd::prelude::*;
use crate::device::{config_ranges_ok, DeviceConfig, TrackpadType};
use crate::error::Error;
use crate::wire::{le16_at, le16_value, le32_at};

verus! {

/// Parsed finger data from an Apple trackpad report, in Apple raw space.
#[derive(Debug, Clone, Copy, PartialEq, Eq, Structural)]
pub struct Finger {
    /// Raw X coordinate (Apple space, signed).
    pub raw_x: i32,
    /// Raw Y coordinate (Apple space, signed).
    pub raw_y: i32,
    /// Touch area major axis.
    pub touch_major: u8,
    /// Touch area minor axis.
    pub touch_minor: u8,
    /// Tool area size.
    pub size: u8,
    /// Pressure value (0-255).
    pub pressure: u8,
    /// Contact identifier (0-15 for TYPE5).
    pub contact_id: u8,
    /// Orientation (0-15 for TYPE5, scaled for TYPE2-4).
    pub orientation: u8,
}

/// A 13-bit two's-complement value `v` (0 ≤ v < 8192) read as a signed integer.
pub open spec fn sign_extend13(v: int) -> int {
    if v >= 4096 { v - 8192 } else { v }
}

/// The finger that a 9-byte TYPE5 block encodes.
pub open spec fn spec_type5_finger(b: Seq<u8>) -> Finger {
    Finger {
        raw_x: sign_extend13(le16_at(b, 0) % 8192) as i32,
        raw_y: (-sign_extend13((le32_at(b, 0) / 8192) % 8192)) as i32,
        touch_major: b[4],
        touch_minor: b[5],
        size: b[6],
        pressure: b[7],
        contact_id: b[8] % 16,
        orientation: b[8] / 16,
    }
}

/// Extract TYPE5 (Magic Trackpad 2) finger data from a raw 9-byte block.
pub fn parse_type5_finger(data: &[u8; 9]) -> (f: Finger)
    ensures
        f == spec_type5_finger(data@),
{
    let b0 = data[0];
    let b1 = data[1];
    let b2 = data[2];
    let b3 = data[3];
    // X: 13-bit signed value from bytes 0-1
    let raw_u16: u16 = (b0 as u16) | ((b1 as u16) << 8u16);
    let tmp_x: u16 = raw_u16 & 0x1fff;
    let x: i16 = ((tmp_x << 3u16) as i16) >> 3u16;
    // Y: 13-bit signed value from bits 13-25 of bytes 0-3, negated
    let raw_u32: u32 = (b0 as u32) | ((b1 as u32) << 8u32) | ((b2 as u32) << 16u32) | ((b3 as u32) << 24u32);
    let sy: i32 = ((raw_u32 << 6u32) as i32) >> 19u32;
    assert(raw_u16 == b0 + 256 * b1) by (bit_vector)
        requires raw_u16 == (b0 as u16) | ((b1 as u16) << 8u16);
    assert(tmp_x == raw_u16 % 8192) by (bit_vector)
        requires tmp_x == raw_u16 & 0x1fff;
    assert(x == (if tmp_x >= 4096 { tmp_x - 8192 } else { tmp_x as int })) by (bit_vector)
        requires tmp_x < 8192, x == ((tmp_x << 3u16) as i16) >> 3u16;
    assert(raw_u32 == b0 + 256 * b1 + 65536 * b2 + 16777216 * b3) by (bit_vector)
        requires raw_u32 == (b0 as u32) | ((b1 as u32) << 8u32) | ((b2 as u32) << 16u32) | ((b3 as u32) << 24u32);
    assert(sy == (if (raw_u32 / 8192) % 8192 >= 4096 { (raw_u32 / 8192) % 8192 - 8192 } else { ((raw_u32 / 8192) % 8192) as int })) by (bit_vector)
        requires sy == ((raw_u32 << 6u32) as i32) >> 19u32;
    let y: i32 = -sy;

    // Contact ID (lower 4 bits) and orientation (upper 4 bits) from byte 8
    let b8 = data[8];
    let id: u8 = b8 & 0x0f;
    let orientation: u8 = (b8 >> 4u8) & 0x0f;
    assert(id == b8 % 16 && orientation == b8 / 16) by (bit_vector)
        requires id == b8 & 0x0f, orientation == (b8 >> 4u8) & 0x0f;

    Finger {
        raw_x: x as i32,
        raw_y: y,
        touch_major: data[4],
        touch_minor: data[5],
        size: data[6],
        pressure: data[7],
        contact_id: id,
        orientation,
    }
}


/// A PTP logical coordinate: the offset `d` of a raw coordinate from the
/// axis minimum, clamped at zero and truncated to 16 bits.
pub open spec fn ptp_coord(d: int) -> u16 {
    if d < 0 { 0 } else { d as u16 }
}

/// The PTP X coordinate of finger `f`: `raw_x - x.min`, clamped at zero.
pub open spec fn spec_ptp_x(f: Finger, config: DeviceConfig) -> u16 {
    ptp_coord(f.raw_x - config.x.min)
}

/// The offset of finger `f`'s Y from the PTP origin. A TYPE5 finger carries
/// the trackpad's (negated) Y, measured from `y.min`; a TYPE2-4 finger
/// already carries `y.max - raw` from parsing, which is that offset.
pub open spec fn spec_y_offset(f: Finger, config: DeviceConfig) -> int {
    if config.trackpad_type is Type5 { f.raw_y - config.y.min } else { f.raw_y as int }
}

/// The PTP Y coordinate of finger `f`: its Y offset, clamped at zero.
pub open spec fn spec_ptp_y(f: Finger, config: DeviceConfig) -> u16 {
    ptp_coord(spec_y_offset(f, config))
}

impl Finger {
    /// Transform raw Apple coordinates to PTP logical coordinates.
    ///
    /// PTP X = raw_x - config.x.min, clamped to ≥ 0.
    /// TYPE5: PTP Y = raw_y - config.y.min, clamped to ≥ 0 (the Y
    /// extraction already negates, so no further inversion is needed).
    /// TYPE2-4: PTP Y = raw_y, clamped to ≥ 0, since parsing already
    /// inverted it to `y.max - raw`.
    pub fn transform_to_ptp(&self, config: &DeviceConfig) -> (r: (u16, u16))
        requires
            i32::MIN <= self.raw_x - config.x.min <= i32::MAX,
            i32::MIN <= spec_y_offset(*self, *config) <= i32::MAX,
        ensures
            r.0 == spec_ptp_x(*self, *config),
            r.1 == spec_ptp_y(*self, *config),
            r.0 == (if self.raw_x < config.x.min { 0u16 } else { (self.raw_x - config.x.min) as u16 }),
    {
        let dx: i32 = self.raw_x - config.x.min;
        let dy: i32 = match config.trackpad_type {
            TrackpadType::Type5 => self.raw_y - config.y.min,
            _ => self.raw_y,
        };
        let cx: i32 = if dx < 0 { 0 } else { dx };
        let cy: i32 = if dy < 0 { 0 } else { dy };
        (cx as u16, cy as u16)
    }

    /// Whether this finger is touching the surface (TipSwitch):
    /// `(touch_major << 1) > 0`, i.e. any nonzero touch area.
    pub fn is_tip_switch(&self) -> (r: bool)
        ensures
            r == (self.touch_major != 0),
    {
        let t: u16 = self.touch_major as u16;
        assert((t << 1u16 > 0) == (t != 0)) by (bit_vector)
            requires t < 256;
        (t << 1u16) > 0
    }

    /// Whether this contact should be reported with confidence: both
    /// `(touch_minor << 1) < 345` and `(touch_major << 1) < 345`, the
    /// threshold that rejects contacts larger than the PTP limit on the
    /// Magic Trackpad 2.
    pub fn is_confident(&self) -> (r: bool)
        ensures
            r == (2 * self.touch_minor < 345 && 2 * self.touch_major < 345),
            r == (self.touch_minor <= 172 && self.touch_major <= 172),
    {
        let tn: u16 = self.touch_minor as u16;
        let tj: u16 = self.touch_major as u16;
        assert((tn << 1u16) == 2 * tn) by (bit_vector)
            requires tn < 256;
        assert((tj << 1u16) == 2 * tj) by (bit_vector)
            requires tj < 256;
        (tn << 1u16) < 345 && (tj << 1u16) < 345
    }
}

/// The PTP X coordinate is the raw X's offset from the X minimum, clamped at
/// zero, on every trackpad type: changing only the trackpad type of the
/// configuration does not change it.
pub proof fn lemma_ptp_x_any_type(f: Finger, config: DeviceConfig, other: TrackpadType)
    ensures
        spec_ptp_x(f, config) == (if f.raw_x < config.x.min { 0u16 } else { (f.raw_x - config.x.min) as u16 }),
        spec_ptp_x(f, DeviceConfig { trackpad_type: other, ..config }) == spec_ptp_x(f, config),
{
}

/// A finger inside the configuration's X range lands at its offset from the
/// X minimum, which is within the PTP logical maximum `x.max - x.min`; the
/// same holds for the Y of a TYPE5 finger inside the Y range.
pub proof fn lemma_ptp_coords_within_logical_max(f: Finger, config: DeviceConfig)
    requires
        config.x.max - config.x.min <= u16::MAX,
        config.y.max - config.y.min <= u16::MAX,
    ensures
        config.x.min <= f.raw_x <= config.x.max ==> {
            &&& spec_ptp_x(f, config) == f.raw_x - config.x.min
            &&& spec_ptp_x(f, config) <= config.x.max - config.x.min
        },
        config.trackpad_type is Type5 && config.y.min <= f.raw_y <= config.y.max ==> {
            &&& spec_ptp_y(f, config) == f.raw_y - config.y.min
            &&& spec_ptp_y(f, config) <= config.y.max - config.y.min
        },
{
}

/// A TYPE2-4 finger whose raw Y (the signed little-endian value at bytes
/// 4-5 of its block) lies inside the configuration's Y range lands at
/// `y.max - raw`, which is within the PTP logical maximum `y.max - y.min`:
/// the Y axis is inverted once.
pub proof fn lemma_legacy_ptp_y_inverted(b: Seq<u8>, config: DeviceConfig)
    requires
        !(config.trackpad_type is Type5),
        config.y.min <= to_i16(le16_at(b, 4)) <= config.y.max,
        config.y.max - config.y.min <= u16::MAX,
    ensures
        spec_ptp_y(spec_legacy_finger(b, config.y.max as int), config) == config.y.max - to_i16(le16_at(b, 4)),
        spec_ptp_y(spec_legacy_finger(b, config.y.max as int), config) <= config.y.max - config.y.min,
{
}

/// A 16-bit value read as a signed (two's-complement) integer.
pub open spec fn to_i16(v: int) -> int {
    if v >= 32768 { v - 65536 } else { v }
}

/// The finger that a TYPE2/3/4 finger block `b` encodes. All fields are
/// little-endian u16: X at byte 2, Y at byte 4 (inverted against `y_max`),
/// touch major at 16, touch minor at 18 and pressure at 24; the last three
/// are halved and kept to their low 8 bits.
pub open spec fn spec_legacy_finger(b: Seq<u8>, y_max: int) -> Finger {
    Finger {
        raw_x: to_i16(le16_at(b, 2)) as i32,
        raw_y: (y_max - to_i16(le16_at(b, 4))) as i32,
        touch_major: ((le16_at(b, 16) / 2) % 256) as u8,
        touch_minor: ((le16_at(b, 18) / 2) % 256) as u8,
        size: 0,
        pressure: ((le16_at(b, 24) / 2) % 256) as u8,
        contact_id: 0,
        orientation: 0,
    }
}

/// The little-endian u16 at `off`.
fn read_le16(data: &[u8], off: usize) -> (r: u16)
    requires
        off + 1 < data@.len(),
    ensures
        r == le16_at(data@, off as int),
{
    le16_value(data[off], data[off + 1])
}

/// Signed reinterpretation of a u16, as Rust's `v as i16`.
fn u16_as_signed(v: u16) -> (r: i32)
    ensures
        r == to_i16(v as int),
{
    let s: i16 = v as i16;
    assert(s == (if v >= 32768 { v - 65536 } else { v as int })) by (bit_vector)
        requires s == v as i16;
    s as i32
}

/// Half of a u16 field, kept to its low 8 bits, as `(v >> 1) as u8`.
fn half_low_byte(v: u16) -> (r: u8)
    ensures
        r == ((v / 2) % 256) as u8,
{
    let r: u8 = (v >> 1u16) as u8;
    assert(r == (v / 2) % 256) by (bit_vector)
        requires r == (v >> 1u16) as u8;
    r
}

/// Extract TYPE2/3/4 finger data from a raw finger block.
///
/// These use 28-byte (TYPE2/3) or 30-byte (TYPE4) le16-aligned structures.
/// For TYPE2-4, Y is inverted: `raw_y = config.y.max - abs_y`.
pub fn parse_legacy_finger(data: &[u8], config: &DeviceConfig) -> (f: Finger)
    requires
        data@.len() >= 26,
        i32::MIN <= config.y.max - to_i16(le16_at(data@, 4)) <= i32::MAX,
    ensures
        f == spec_legacy_finger(data@, config.y.max as int),
{
    let abs_x = read_le16(data, 2);
    let abs_y = read_le16(data, 4);
    let touch_major = read_le16(data, 16);
    let touch_minor = read_le16(data, 18);
    let pressure = read_le16(data, 24);

    let raw_x = u16_as_signed(abs_x);
    let raw_y = config.y.max - u16_as_signed(abs_y);

    Finger {
        raw_x,
        raw_y,
        touch_major: half_low_byte(touch_major),
        touch_minor: half_low_byte(touch_minor),
        size: 0,
        pressure: half_low_byte(pressure),
        contact_id: 0,
        orientation: 0,
    }
}


/// Bytes of finger data in a report of `len` bytes: what follows the header
/// and the header-to-finger delta (zero when the report ends before that).
pub open spec fn spec_finger_payload(len: int, header_size: int, delta: int) -> int {
    if len - header_size >= delta { len - header_size - delta } else { 0 }
}

/// Whether the button byte of `report` (at `button_offset`) reports a press.
pub open spec fn spec_button_pressed(report: Seq<u8>, button_offset: int) -> bool {
    button_offset < report.len() && report[button_offset] % 2 == 1
}

/// What [`parse_report`] returns for `report` when the output buffer holds
/// `out_len` fingers: an error for a report shorter than its header, or one
/// whose finger data is not a whole number of finger blocks (the error gives
/// the payload after the header), otherwise the number of fingers parsed
/// (all of them, up to `out_len`) and the button state.
pub open spec fn spec_parse_report(
    report: Seq<u8>,
    config: DeviceConfig,
    header_size: usize,
    out_len: int,
) -> Result<(usize, bool), Error> {
    let ty = config.trackpad_type;
    let fs = ty.spec_finger_size() as int;
    if report.len() < header_size {
        Err(Error::BufferTooShort { actual: report.len() as usize, expected: header_size })
    } else {
        let fp = spec_finger_payload(report.len() as int, header_size as int, ty.spec_finger_delta() as int);
        if fp % fs != 0 {
            Err(Error::MalformedPayload { payload_len: (report.len() - header_size) as usize, finger_size: fs as usize })
        } else {
            let raw_count = fp / fs;
            let count = if raw_count < out_len { raw_count } else { out_len };
            Ok((count as usize, spec_button_pressed(report, ty.spec_button_offset() as int)))
        }
    }
}

/// Offset of finger block `i` in a report.
pub open spec fn spec_finger_offset(config: DeviceConfig, header_size: usize, i: int) -> int {
    header_size + config.trackpad_type.spec_finger_delta() + i * config.trackpad_type.spec_finger_size()
}

/// The finger that block `i` of `report` encodes. TYPE2-4 blocks carry no
/// contact ID, so the block index (as a byte) stands in for it.
pub open spec fn spec_report_finger(report: Seq<u8>, config: DeviceConfig, header_size: usize, i: int) -> Finger {
    let off = spec_finger_offset(config, header_size, i);
    let fs = config.trackpad_type.spec_finger_size() as int;
    if config.trackpad_type is Type5 {
        spec_type5_finger(report.subrange(off, off + 9))
    } else {
        let f = spec_legacy_finger(report.subrange(off, off + fs), config.y.max as int);
        Finger { contact_id: i as u8, ..f }
    }
}

/// For TYPE2-4 devices, inverting the Y coordinate of every finger that
/// [`parse_report`] parses stays within `i32`.
pub open spec fn legacy_y_in_range(report: Seq<u8>, config: DeviceConfig, header_size: usize, out_len: int) -> bool {
    match spec_parse_report(report, config, header_size, out_len) {
        Ok((count, _)) => forall|i: int|
            #![trigger spec_finger_offset(config, header_size, i)]
            0 <= i < count ==> i32::MIN <= config.y.max - to_i16(
                le16_at(report, spec_finger_offset(config, header_size, i) + 4),
            ) <= i32::MAX,
        Err(_) => true,
    }
}

proof fn lemma_block_in_bounds(i: int, count: int, raw_count: int, fs: int, fp: int)
    requires
        0 <= i < count <= raw_count,
        fs > 0,
        fp == raw_count * fs,
    ensures
        i * fs + fs <= fp,
        0 <= i * fs,
{
    assert(i * fs + fs <= raw_count * fs) by (nonlinear_arith)
        requires 0 <= i < raw_count, fs > 0;
    assert(0 <= i * fs) by (nonlinear_arith)
        requires 0 <= i, fs > 0;
}

/// Parse all fingers from a raw trackpad report.
///
/// Returns the finger count and whether the button is pressed; the parsed
/// fingers are written to the front of `out`.
pub fn parse_report(
    report: &[u8],
    config: &DeviceConfig,
    header_size: usize,
    out: &mut [Finger],
) -> (r: Result<(usize, bool), Error>)
    requires
        config.trackpad_type is Type5 || legacy_y_in_range(report@, *config, header_size, old(out)@.len() as int),
    ensures
        r == spec_parse_report(report@, *config, header_size, old(out)@.len() as int),
        final(out)@.len() == old(out)@.len(),
        r is Err ==> final(out)@ == old(out)@,
        forall|i: int| #![trigger final(out)@[i]]
            0 <= i < final(out)@.len() ==> final(out)@[i] == (match r {
                Ok((count, _)) => if i < count {
                    spec_report_finger(report@, *config, header_size, i)
                } else {
                    old(out)@[i]
                },
                Err(_) => old(out)@[i],
            }),
{
    let ty = config.trackpad_type;
    let finger_size = ty.finger_size();
    let delta = ty.finger_delta();
    let button_offset = ty.button_offset();

    if report.len() < header_size {
        return Err(Error::BufferTooShort { actual: report.len(), expected: header_size });
    }

    // Subtract both header and delta to get the actual finger data region.
    let payload = report.len() - header_size;
    let finger_payload = if payload >= delta { payload - delta } else { 0 };
    if finger_size > 0 && finger_payload % finger_size != 0 {
        return Err(Error::MalformedPayload { payload_len: payload, finger_size });
    }

    let raw_count = if finger_size > 0 { finger_payload / finger_size } else { 0 };
    let count = if raw_count < out.len() { raw_count } else { out.len() };
    let ghost out_len = old(out)@.len();
    let ghost spec_r = spec_parse_report(report@, *config, header_size, out_len as int);
    assert(finger_payload == raw_count * finger_size) by (nonlinear_arith)
        requires finger_payload % finger_size == 0, finger_size > 0, raw_count == finger_payload / finger_size;

    assert(raw_count > 0 ==> finger_payload > 0) by (nonlinear_arith)
        requires finger_payload == raw_count * finger_size, finger_size > 0;
    let mut i: usize = 0;
    while i < count
        invariant
            0 <= i <= count <= raw_count,
            count <= out@.len(),
            out@.len() == out_len,
            ty == config.trackpad_type,
            finger_size == config.trackpad_type.spec_finger_size(),
            delta == config.trackpad_type.spec_finger_delta(),
            finger_size > 0,
            finger_payload == raw_count * finger_size,
            raw_count > 0 ==> header_size + delta + finger_payload == report@.len(),
            report@.len() <= usize::MAX,
            spec_r == spec_parse_report(report@, *config, header_size, out_len as int),
            spec_r matches Ok((c, _)) && c == count,
            config.trackpad_type is Type5 || legacy_y_in_range(report@, *config, header_size, out_len as int),
            forall|j: int| #![trigger out@[j]]
                0 <= j < out_len ==> out@[j] == (if j < i {
                    spec_report_finger(report@, *config, header_size, j)
                } else {
                    old(out)@[j]
                }),
        decreases count - i,
    {
        proof {
            lemma_block_in_bounds(i as int, count as int, raw_count as int, finger_size as int, finger_payload as int);
        }
        let offset = header_size + delta + i * finger_size;
        assert(offset == spec_finger_offset(*config, header_size, i as int));
        let f = match ty {
            TrackpadType::Type5 => {
                let block: [u8; 9] = [
                    report[offset], report[offset + 1], report[offset + 2],
                    report[offset + 3], report[offset + 4], report[offset + 5],
                    report[offset + 6], report[offset + 7], report[offset + 8],
                ];
                assert(block@ =~= report@.subrange(offset as int, offset + 9));
                let f5 = parse_type5_finger(&block);
                f5
            },
            _ => {
                let finger_data = &report[offset..offset + finger_size];
                assert(finger_data@ =~= report@.subrange(offset as int, offset + finger_size));
                assert(le16_at(finger_data@, 4) == le16_at(report@, spec_finger_offset(*config, header_size, i as int) + 4));
                let mut f = parse_legacy_finger(finger_data, config);
                f.contact_id = #[verifier::truncate] (i as u8);
                f
            },
        };
        out[i] = f;
        i = i + 1;
    }

    // Button state
    let button = if button_offset < report.len() {
        let b = report[button_offset];
        assert((b & 1 != 0) == (b % 2 == 1)) by (bit_vector);
        (b & 1) != 0
    } else {
        false
    };

    Ok((count, button))
}


/// TYPE5 coordinates round-trip: any X in [-4096, 4095] written as a 13-bit
/// two's-complement field in bits 0-12, and any Y in [-4095, 4096] whose
/// negation is written the same way in bits 13-25, parse back to X and Y.
pub proof fn lemma_type5_coordinates_round_trip(b: Seq<u8>, x: int, y: int)
    requires
        b.len() == 9,
        -4096 <= x < 4096,
        -4096 < y <= 4096,
        le32_at(b, 0) % 8192 == (x + 8192) % 8192,
        (le32_at(b, 0) / 8192) % 8192 == (8192 - y) % 8192,
    ensures
        spec_type5_finger(b).raw_x == x,
        spec_type5_finger(b).raw_y == y,
{
    let v = le32_at(b, 0);
    assert(le16_at(b, 0) % 8192 == v % 8192) by {
        assert(v == le16_at(b, 0) + 65536 * le16_at(b, 2));
        assert((le16_at(b, 0) + 8192 * (8 * le16_at(b, 2))) % 8192 == le16_at(b, 0) % 8192) by (nonlinear_arith);
    }
}

/// Transforming `f` to PTP coordinates under `config` stays within `i32`.
pub open spec fn finger_transformable(f: Finger, config: DeviceConfig) -> bool {
    &&& i32::MIN <= f.raw_x - config.x.min <= i32::MAX
    &&& i32::MIN <= spec_y_offset(f, config) <= i32::MAX
}

/// With coordinate limits in range, parsing a report never leaves `i32`, and
/// every finger it yields can be transformed to PTP coordinates.
pub proof fn lemma_parse_in_range(report: Seq<u8>, config: DeviceConfig, header_size: usize, out_len: int)
    requires
        config_ranges_ok(config),
    ensures
        legacy_y_in_range(report, config, header_size, out_len),
        forall|i: int| #![trigger spec_report_finger(report, config, header_size, i)]
            finger_transformable(spec_report_finger(report, config, header_size, i), config),
{
    assert forall|i: int| #![trigger spec_report_finger(report, config, header_size, i)]
        finger_transformable(spec_report_finger(report, config, header_size, i), config) by {
        let off = spec_finger_offset(config, header_size, i);
        let fs = config.trackpad_type.spec_finger_size() as int;
        if config.trackpad_type is Type5 {
            let b = report.subrange(off, off + 9);
            let v = le32_at(b, 0);
            assert(0 <= le16_at(b, 0) % 8192 < 8192);
            assert(0 <= (v / 8192) % 8192 < 8192);
        } else {
            let b = report.subrange(off, off + fs);
            assert(0 <= le16_at(b, 2) <= 65535);
            assert(0 <= le16_at(b, 4) <= 65535);
        }
    }
    match spec_parse_report(report, config, header_size, out_len) {
        Ok((count, _)) => {
            assert forall|i: int| #![trigger spec_finger_offset(config, header_size, i)]
                0 <= i < count implies i32::MIN <= config.y.max - to_i16(
                    le16_at(report, spec_finger_offset(config, header_size, i) + 4),
                ) <= i32::MAX by {
                let off = spec_finger_offset(config, header_size, i);
                assert(0 <= le16_at(report, off + 4) <= 65535);
            }
        },
        Err(_) => {},
    }
}

} // verus!
