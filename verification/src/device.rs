//! Device configuration types and the per-device parameter table.
//!
//! Each supported Apple trackpad has a [`DeviceConfig`] entry describing its
//! firmware format, coordinate ranges, USB endpoints and Wellspring
//! mode-switch parameters. The drivers look the connected device's product ID
//! up with [`lookup_config`].
use vstd::prelude::*;
use crate::constants::{
    BUTTON_TYPE1, BUTTON_TYPE2, BUTTON_TYPE3, BUTTON_TYPE4, BUTTON_TYPE5, DELTA_TYPE1,
    DELTA_TYPE2, DELTA_TYPE3, DELTA_TYPE4, DELTA_TYPE5, FSIZE_TYPE1, FSIZE_TYPE2, FSIZE_TYPE3,
    FSIZE_TYPE4, FSIZE_TYPE5, HEADER_TYPE1, HEADER_TYPE2, HEADER_TYPE3, HEADER_TYPE4,
    HEADER_TYPE5_BT, HEADER_TYPE5_USB, MAX_FINGERS, MAX_FINGER_ORIENTATION, MT2_X_PHYSICAL_MAX,
    MT2_Y_PHYSICAL_MAX, PID_DEFAULT_FALLBACK, PID_MAGIC_TRACKPAD2, PID_T2_7A, PID_T2_7B,
    PID_T2_7C, PID_T2_7D, SN_COORD, SN_ORIENT, SN_PRESSURE, SN_WIDTH,
};

verus! {

/// Apple trackpad firmware format version.
///
/// Determines header size, finger block layout, button offset, and
/// coordinate extraction method.
#[derive(Debug, Clone, Copy, PartialEq, Eq, Structural)]
pub enum TrackpadType {
    /// Plain trackpad (MacBook Air 1st gen). 28-byte finger blocks.
    Type1,
    /// Button integrated in trackpad (MacBook Pro Penryn+). 28-byte finger blocks.
    Type2,
    /// Additional header fields (June 2013+). 28-byte finger blocks.
    Type3,
    /// Pressure data field added (T2 and Wellspring9). 30-byte finger blocks.
    Type4,
    /// Magic Trackpad 2 packed format. 9-byte finger blocks.
    Type5,
}

impl TrackpadType {
    /// Header size in bytes of a USB report of this type.
    pub open spec fn spec_header_size_usb(self) -> usize {
        match self {
            TrackpadType::Type1 => HEADER_TYPE1,
            TrackpadType::Type2 => HEADER_TYPE2,
            TrackpadType::Type3 => HEADER_TYPE3,
            TrackpadType::Type4 => HEADER_TYPE4,
            TrackpadType::Type5 => HEADER_TYPE5_USB,
        }
    }

    /// Header size in bytes of a Bluetooth report of this type: it differs
    /// from the USB one for TYPE5 only.
    pub open spec fn spec_header_size_bt(self) -> usize {
        match self {
            TrackpadType::Type5 => HEADER_TYPE5_BT,
            _ => self.spec_header_size_usb(),
        }
    }

    /// Size in bytes of one finger block.
    pub open spec fn spec_finger_size(self) -> usize {
        match self {
            TrackpadType::Type1 => FSIZE_TYPE1,
            TrackpadType::Type2 => FSIZE_TYPE2,
            TrackpadType::Type3 => FSIZE_TYPE3,
            TrackpadType::Type4 => FSIZE_TYPE4,
            TrackpadType::Type5 => FSIZE_TYPE5,
        }
    }

    /// Offset from the end of the header to the first finger block.
    pub open spec fn spec_finger_delta(self) -> usize {
        match self {
            TrackpadType::Type1 => DELTA_TYPE1,
            TrackpadType::Type2 => DELTA_TYPE2,
            TrackpadType::Type3 => DELTA_TYPE3,
            TrackpadType::Type4 => DELTA_TYPE4,
            TrackpadType::Type5 => DELTA_TYPE5,
        }
    }

    /// Byte offset of the button state within a report.
    pub open spec fn spec_button_offset(self) -> usize {
        match self {
            TrackpadType::Type1 => BUTTON_TYPE1,
            TrackpadType::Type2 => BUTTON_TYPE2,
            TrackpadType::Type3 => BUTTON_TYPE3,
            TrackpadType::Type4 => BUTTON_TYPE4,
            TrackpadType::Type5 => BUTTON_TYPE5,
        }
    }

    /// Header size in bytes for this trackpad type (USB transport).
    pub fn header_size_usb(self) -> (r: usize)
        ensures
            r == self.spec_header_size_usb(),
    {
        match self {
            TrackpadType::Type1 => HEADER_TYPE1,
            TrackpadType::Type2 => HEADER_TYPE2,
            TrackpadType::Type3 => HEADER_TYPE3,
            TrackpadType::Type4 => HEADER_TYPE4,
            TrackpadType::Type5 => HEADER_TYPE5_USB,
        }
    }

    /// Header size in bytes for this trackpad type (Bluetooth transport).
    /// Only differs for TYPE5; all others are the same as USB.
    pub fn header_size_bt(self) -> (r: usize)
        ensures
            r == self.spec_header_size_bt(),
    {
        match self {
            TrackpadType::Type5 => HEADER_TYPE5_BT,
            other => other.header_size_usb(),
        }
    }

    /// Finger data block size in bytes.
    pub fn finger_size(self) -> (r: usize)
        ensures
            r == self.spec_finger_size(),
    {
        match self {
            TrackpadType::Type1 => FSIZE_TYPE1,
            TrackpadType::Type2 => FSIZE_TYPE2,
            TrackpadType::Type3 => FSIZE_TYPE3,
            TrackpadType::Type4 => FSIZE_TYPE4,
            TrackpadType::Type5 => FSIZE_TYPE5,
        }
    }

    /// Offset from header end to first finger data block.
    pub fn finger_delta(self) -> (r: usize)
        ensures
            r == self.spec_finger_delta(),
    {
        match self {
            TrackpadType::Type1 => DELTA_TYPE1,
            TrackpadType::Type2 => DELTA_TYPE2,
            TrackpadType::Type3 => DELTA_TYPE3,
            TrackpadType::Type4 => DELTA_TYPE4,
            TrackpadType::Type5 => DELTA_TYPE5,
        }
    }

    /// Button byte offset within the report.
    pub fn button_offset(self) -> (r: usize)
        ensures
            r == self.spec_button_offset(),
    {
        match self {
            TrackpadType::Type1 => BUTTON_TYPE1,
            TrackpadType::Type2 => BUTTON_TYPE2,
            TrackpadType::Type3 => BUTTON_TYPE3,
            TrackpadType::Type4 => BUTTON_TYPE4,
            TrackpadType::Type5 => BUTTON_TYPE5,
        }
    }

    /// Total data length for a full report (header + MAX_FINGERS × finger_size).
    pub fn usb_report_size(self) -> (r: usize)
        ensures
            r == self.spec_header_size_usb() + MAX_FINGERS * self.spec_finger_size(),
    {
        self.header_size_usb() + MAX_FINGERS * self.finger_size()
    }
}

/// Per-axis parameter limits (coordinate, pressure, width, orientation).
#[derive(Debug, Clone, Copy, PartialEq, Eq, Structural)]
pub struct AxisParams {
    /// Signal-to-noise ratio for this axis.
    pub sn_ratio: i32,
    /// Minimum raw value from the device.
    pub min: i32,
    /// Maximum raw value from the device.
    pub max: i32,
}

impl AxisParams {
    /// Span of raw values: `max - min`.
    pub fn span(self) -> (r: i32)
        requires
            i32::MIN <= self.max - self.min <= i32::MAX,
        ensures
            r == self.max - self.min,
    {
        self.max - self.min
    }
}

/// USB control message parameters for Wellspring mode switching.
#[derive(Debug, Clone, Copy, PartialEq, Eq, Structural)]
pub struct WellspringMsg {
    /// Control transfer data length.
    pub size: u16,
    /// wValue for the USB control transfer.
    pub req_val: u16,
    /// wIndex for the USB control transfer.
    pub req_idx: u16,
    /// Index into the control buffer for the mode switch byte.
    pub switch_idx: u16,
    /// Value to write for mode ON (raw multitouch data).
    pub switch_on: u8,
    /// Value to write for mode OFF (standard HID reports).
    pub switch_off: u8,
}

/// USB Wellspring parameters for TYPE1-3 firmware.
pub open spec fn spec_wellspring_msg_type1() -> WellspringMsg {
    WellspringMsg { size: 8, req_val: 0x300, req_idx: 0, switch_idx: 0, switch_on: 0x1, switch_off: 0x8 }
}

/// USB Wellspring parameters for TYPE4 firmware.
pub open spec fn spec_wellspring_msg_type4() -> WellspringMsg {
    WellspringMsg { size: 2, req_val: 0x302, req_idx: 2, switch_idx: 1, switch_on: 0x1, switch_off: 0x0 }
}

/// USB Wellspring parameters for TYPE5 (Magic Trackpad 2) firmware.
pub open spec fn spec_wellspring_msg_type5() -> WellspringMsg {
    WellspringMsg { size: 2, req_val: 0x302, req_idx: 1, switch_idx: 1, switch_on: 0x1, switch_off: 0x0 }
}

/// USB Wellspring parameters for TYPE1-3 firmware.
pub fn wellspring_msg_type1() -> (r: WellspringMsg)
    ensures
        r == spec_wellspring_msg_type1(),
{
    WellspringMsg { size: 8, req_val: 0x300, req_idx: 0, switch_idx: 0, switch_on: 0x1, switch_off: 0x8 }
}

/// USB Wellspring parameters for TYPE4 firmware.
pub fn wellspring_msg_type4() -> (r: WellspringMsg)
    ensures
        r == spec_wellspring_msg_type4(),
{
    WellspringMsg { size: 2, req_val: 0x302, req_idx: 2, switch_idx: 1, switch_on: 0x1, switch_off: 0x0 }
}

/// USB Wellspring parameters for TYPE5 (Magic Trackpad 2) firmware.
pub fn wellspring_msg_type5() -> (r: WellspringMsg)
    ensures
        r == spec_wellspring_msg_type5(),
{
    WellspringMsg { size: 2, req_val: 0x302, req_idx: 1, switch_idx: 1, switch_on: 0x1, switch_off: 0x0 }
}

/// Device capability flag: the trackpad surface is a clickable button.
pub const HAS_INTEGRATED_BUTTON: u32 = 1;

/// Complete configuration for one Apple trackpad device.
#[derive(Debug, Clone, Copy)]
pub struct DeviceConfig {
    /// USB product ID (or `PID_DEFAULT_FALLBACK` for the catch-all entry).
    pub product_id: u16,
    /// Capability bitmask (see [`HAS_INTEGRATED_BUTTON`]).
    pub caps: u32,
    /// Button endpoint address (0 if button data is inline in trackpad report).
    pub button_endpoint: u8,
    /// Button data length in bytes.
    pub button_data_len: usize,
    /// Trackpad interrupt endpoint address.
    pub trackpad_endpoint: u8,
    /// Firmware format type.
    pub trackpad_type: TrackpadType,
    /// Wellspring USB control message parameters.
    pub wellspring_msg: WellspringMsg,
    /// Finger pressure limits.
    pub pressure: AxisParams,
    /// Finger width limits.
    pub width: AxisParams,
    /// Horizontal (X) coordinate limits.
    pub x: AxisParams,
    /// Vertical (Y) coordinate limits.
    pub y: AxisParams,
    /// Orientation limits.
    pub orientation: AxisParams,
}

impl DeviceConfig {
    /// Whether the device has an integrated clickpad button.
    pub fn has_integrated_button(&self) -> (r: bool)
        ensures
            r == (self.caps & HAS_INTEGRATED_BUTTON != 0),
            r == (self.caps % 2 == 1),
    {
        let c = self.caps;
        assert((c & 1u32 != 0) == (c % 2 == 1)) by (bit_vector);
        self.caps & HAS_INTEGRATED_BUTTON != 0
    }

    /// PTP logical maximum for the X axis: the raw span `x.max - x.min`,
    /// truncated to 16 bits.
    pub fn ptp_x_logical_max(&self) -> (r: u16)
        requires
            i32::MIN <= self.x.max - self.x.min <= i32::MAX,
        ensures
            r == (self.x.max - self.x.min) as u16,
            0 <= self.x.max - self.x.min <= u16::MAX ==> r == self.x.max - self.x.min,
    {
        let d: i32 = self.x.max - self.x.min;
        d as u16
    }

    /// PTP logical maximum for the Y axis: the raw span `y.max - y.min`,
    /// truncated to 16 bits.
    pub fn ptp_y_logical_max(&self) -> (r: u16)
        requires
            i32::MIN <= self.y.max - self.y.min <= i32::MAX,
        ensures
            r == (self.y.max - self.y.min) as u16,
            0 <= self.y.max - self.y.min <= u16::MAX ==> r == self.y.max - self.y.min,
    {
        let d: i32 = self.y.max - self.y.min;
        d as u16
    }

    /// PTP physical maximum for the X axis (see [`Self::ptp_x_physical_max`]).
    pub open spec fn spec_ptp_x_physical_max(self) -> u16 {
        MT2_X_PHYSICAL_MAX
    }

    /// PTP physical maximum for the Y axis (see [`Self::ptp_y_physical_max`]).
    pub open spec fn spec_ptp_y_physical_max(self) -> u16 {
        MT2_Y_PHYSICAL_MAX
    }

    /// PTP physical maximum for the X axis, in 0.1 mm: the width of the
    /// Magic Trackpad 2 surface. The configuration table records no
    /// physical size, so every model, the T2 MacBooks included, reports the
    /// Magic Trackpad 2 value.
    pub fn ptp_x_physical_max(&self) -> (r: u16)
        ensures
            r == MT2_X_PHYSICAL_MAX,
    {
        MT2_X_PHYSICAL_MAX
    }

    /// PTP physical maximum for the Y axis, in 0.1 mm: the height of the
    /// Magic Trackpad 2 surface. The configuration table records no
    /// physical size, so every model, the T2 MacBooks included, reports the
    /// Magic Trackpad 2 value.
    pub fn ptp_y_physical_max(&self) -> (r: u16)
        ensures
            r == MT2_Y_PHYSICAL_MAX,
    {
        MT2_Y_PHYSICAL_MAX
    }
}

/// A table entry: every entry shares the pressure, width and orientation
/// limits, the endpoints and the capabilities; it differs in product ID,
/// firmware type, Wellspring message and coordinate ranges.
pub open spec fn spec_entry(
    product_id: u16,
    trackpad_type: TrackpadType,
    wellspring_msg: WellspringMsg,
    x_min: i32,
    x_max: i32,
    y_min: i32,
    y_max: i32,
) -> DeviceConfig {
    DeviceConfig {
        product_id,
        caps: HAS_INTEGRATED_BUTTON,
        button_endpoint: 0,
        button_data_len: 4,
        trackpad_endpoint: 0x83,
        trackpad_type,
        wellspring_msg,
        pressure: AxisParams { sn_ratio: SN_PRESSURE, min: 0, max: 300 },
        width: AxisParams { sn_ratio: SN_WIDTH, min: 0, max: 2048 },
        x: AxisParams { sn_ratio: SN_COORD, min: x_min, max: x_max },
        y: AxisParams { sn_ratio: SN_COORD, min: y_min, max: y_max },
        orientation: AxisParams {
            sn_ratio: SN_ORIENT,
            min: (-MAX_FINGER_ORIENTATION) as i32,
            max: MAX_FINGER_ORIENTATION,
        },
    }
}

/// The device configuration table, searched by product ID. The first entry
/// is the fallback (oversampled ranges) for unknown T2 devices.
pub open spec fn spec_config_table() -> Seq<DeviceConfig> {
    seq![
        spec_entry(PID_DEFAULT_FALLBACK, TrackpadType::Type4, spec_wellspring_msg_type4(), -10000i32, 10000i32, -2000i32, 10000i32),
        spec_entry(PID_T2_7A, TrackpadType::Type4, spec_wellspring_msg_type4(), -6243i32, 6749i32, -170i32, 7685i32),
        spec_entry(PID_T2_7B, TrackpadType::Type4, spec_wellspring_msg_type4(), -6243i32, 6749i32, -170i32, 7685i32),
        spec_entry(PID_T2_7C, TrackpadType::Type4, spec_wellspring_msg_type4(), -10000i32, 10000i32, -2000i32, 10000i32),
        spec_entry(PID_T2_7D, TrackpadType::Type4, spec_wellspring_msg_type4(), -10000i32, 10000i32, -2000i32, 10000i32),
        spec_entry(PID_MAGIC_TRACKPAD2, TrackpadType::Type5, spec_wellspring_msg_type5(), -3678i32, 3934i32, -2479i32, 2586i32),
    ]
}

/// Index of the first table entry at or after `start` whose product ID is
/// `product_id`, or the table length when there is none.
pub open spec fn spec_find_entry(product_id: u16, start: int) -> int
    decreases spec_config_table().len() - start,
{
    if start < 0 || start >= spec_config_table().len() {
        spec_config_table().len() as int
    } else if spec_config_table()[start].product_id == product_id {
        start
    } else {
        spec_find_entry(product_id, start + 1)
    }
}

/// The configuration for `product_id`: the first table entry with that
/// product ID, or the fallback entry (the first one) when there is none.
pub open spec fn spec_lookup_config(product_id: u16) -> DeviceConfig {
    let i = spec_find_entry(product_id, 0);
    if i < spec_config_table().len() {
        spec_config_table()[i]
    } else {
        spec_config_table()[0]
    }
}

fn make_entry(
    product_id: u16,
    trackpad_type: TrackpadType,
    wellspring_msg: WellspringMsg,
    x_min: i32,
    x_max: i32,
    y_min: i32,
    y_max: i32,
) -> (r: DeviceConfig)
    ensures
        r == spec_entry(product_id, trackpad_type, wellspring_msg, x_min, x_max, y_min, y_max),
{
    DeviceConfig {
        product_id,
        caps: HAS_INTEGRATED_BUTTON,
        button_endpoint: 0,
        button_data_len: 4,
        trackpad_endpoint: 0x83,
        trackpad_type,
        wellspring_msg,
        pressure: AxisParams { sn_ratio: SN_PRESSURE, min: 0, max: 300 },
        width: AxisParams { sn_ratio: SN_WIDTH, min: 0, max: 2048 },
        x: AxisParams { sn_ratio: SN_COORD, min: x_min, max: x_max },
        y: AxisParams { sn_ratio: SN_COORD, min: y_min, max: y_max },
        orientation: AxisParams {
            sn_ratio: SN_ORIENT,
            min: -MAX_FINGER_ORIENTATION,
            max: MAX_FINGER_ORIENTATION,
        },
    }
}

/// The device configuration table (see [`spec_config_table`]).
pub fn config_table() -> (r: Vec<DeviceConfig>)
    ensures
        r@ == spec_config_table(),
{
    let mut t: Vec<DeviceConfig> = Vec::new();
    t.push(make_entry(PID_DEFAULT_FALLBACK, TrackpadType::Type4, wellspring_msg_type4(), -10000, 10000, -2000, 10000));
    t.push(make_entry(PID_T2_7A, TrackpadType::Type4, wellspring_msg_type4(), -6243, 6749, -170, 7685));
    t.push(make_entry(PID_T2_7B, TrackpadType::Type4, wellspring_msg_type4(), -6243, 6749, -170, 7685));
    t.push(make_entry(PID_T2_7C, TrackpadType::Type4, wellspring_msg_type4(), -10000, 10000, -2000, 10000));
    t.push(make_entry(PID_T2_7D, TrackpadType::Type4, wellspring_msg_type4(), -10000, 10000, -2000, 10000));
    t.push(make_entry(PID_MAGIC_TRACKPAD2, TrackpadType::Type5, wellspring_msg_type5(), -3678, 3934, -2479, 2586));
    assert(t@ =~= spec_config_table());
    t
}

/// Look up a device configuration by USB product ID.
///
/// Returns the matching config, or the fallback entry (`PID_DEFAULT_FALLBACK`)
/// if no exact match is found.
pub fn lookup_config(product_id: u16) -> (r: DeviceConfig)
    ensures
        r == spec_lookup_config(product_id),
{
    let table = config_table();
    let mut i: usize = 0;
    while i < table.len()
        invariant
            table@ == spec_config_table(),
            0 <= i <= table.len(),
            spec_find_entry(product_id, i as int) == spec_find_entry(product_id, 0),
        decreases table.len() - i,
    {
        if table[i].product_id == product_id {
            return table[i];
        }
        i = i + 1;
    }
    table[0]
}


/// The coordinate limits of `c` are small enough (within ±2^29) that
/// parsing and transforming any finger, and taking the axis spans, stay within
/// `i32`. Every table entry meets this.
pub open spec fn config_ranges_ok(c: DeviceConfig) -> bool {
    &&& -536870912 <= c.x.min <= 536870912
    &&& -536870912 <= c.x.max <= 536870912
    &&& -536870912 <= c.y.min <= 536870912
    &&& -536870912 <= c.y.max <= 536870912
}

/// Every configuration that [`lookup_config`] can return has coordinate
/// limits within the range that parsing and transforming need.
pub proof fn lemma_lookup_config_ranges_ok(product_id: u16)
    ensures
        config_ranges_ok(spec_lookup_config(product_id)),
{
    let t = spec_config_table();
    assert(forall|i: int| 0 <= i < t.len() ==> config_ranges_ok(#[trigger] t[i]));
    lemma_find_entry_bounds(product_id, 0);
}

proof fn lemma_find_entry_bounds(product_id: u16, start: int)
    requires
        0 <= start <= spec_config_table().len(),
    ensures
        start <= spec_find_entry(product_id, start) <= spec_config_table().len(),
        spec_find_entry(product_id, start) < spec_config_table().len() ==>
            spec_config_table()[spec_find_entry(product_id, start)].product_id == product_id,
        forall|k: int| start <= k < spec_find_entry(product_id, start) ==>
            spec_config_table()[k].product_id != product_id,
    decreases spec_config_table().len() - start,
{
    if start < spec_config_table().len() && spec_config_table()[start].product_id != product_id {
        lemma_find_entry_bounds(product_id, start + 1);
    }
}

/// Lookup finds the device's own entry when the table has one, and the
/// fallback entry otherwise: the result has the requested product ID exactly
/// when some entry has it, and otherwise it is the first entry of the table.
pub proof fn lemma_lookup_config_matches(product_id: u16)
    ensures
        (exists|i: int| 0 <= i < spec_config_table().len() && #[trigger] spec_config_table()[i].product_id == product_id)
            ==> spec_lookup_config(product_id).product_id == product_id,
        !(exists|i: int| 0 <= i < spec_config_table().len() && #[trigger] spec_config_table()[i].product_id == product_id)
            ==> spec_lookup_config(product_id) == spec_config_table()[0],
{
    lemma_find_entry_bounds(product_id, 0);
    let t = spec_config_table();
    if exists|i: int| 0 <= i < t.len() && #[trigger] t[i].product_id == product_id {
        let i = choose|i: int| 0 <= i < t.len() && #[trigger] t[i].product_id == product_id;
        assert(spec_find_entry(product_id, 0) <= i);
    }
}

/// The coordinate ranges and firmware type of each supported product, as
/// the table gives them: the 13-inch T2 trackpads (0x027a, 0x027b) span
/// X -6243..6749 and Y -170..7685; the 15/16-inch ones (0x027c, 0x027d) and
/// unknown products the oversampled X -10000..10000 and Y -2000..10000; the
/// Magic Trackpad 2 (0x0265) X -3678..3934 and Y -2479..2586. All T2
/// trackpads are TYPE4 and the Magic Trackpad 2 is TYPE5.
pub proof fn lemma_lookup_config_ranges(product_id: u16)
    ensures
        ({
            let c = spec_lookup_config(product_id);
            if product_id == 0x027a || product_id == 0x027b {
                &&& c.product_id == product_id
                &&& c.trackpad_type is Type4
                &&& c.x.min == -6243 && c.x.max == 6749
                &&& c.y.min == -170 && c.y.max == 7685
            } else if product_id == 0x027c || product_id == 0x027d {
                &&& c.product_id == product_id
                &&& c.trackpad_type is Type4
                &&& c.x.min == -10000 && c.x.max == 10000
                &&& c.y.min == -2000 && c.y.max == 10000
            } else if product_id == 0x0265 {
                &&& c.product_id == product_id
                &&& c.trackpad_type is Type5
                &&& c.x.min == -3678 && c.x.max == 3934
                &&& c.y.min == -2479 && c.y.max == 2586
            } else {
                &&& c.trackpad_type is Type4
                &&& c.x.min == -10000 && c.x.max == 10000
                &&& c.y.min == -2000 && c.y.max == 10000
            }
        }),
{
    lemma_find_entry_bounds(product_id, 0);
    let t = spec_config_table();
    let i = spec_find_entry(product_id, 0);
    if i < t.len() {
        assert(t[i].product_id == product_id);
    }
    assert(t[1].product_id == 0x027a && t[2].product_id == 0x027b && t[3].product_id == 0x027c);
    assert(t[4].product_id == 0x027d && t[5].product_id == 0x0265);
}

/// The Wellspring mode switch of every configuration, by firmware type:
/// TYPE4 (the T2 trackpads) reads and writes 2 bytes with wValue 0x302 and
/// wIndex 2, and sets byte 1 to 1 (on) or 0 (off); TYPE5 (the Magic
/// Trackpad 2) the same with wIndex 1. No configuration has another type.
pub proof fn lemma_wellspring_msg_by_type(product_id: u16)
    ensures
        ({
            let c = spec_lookup_config(product_id);
            &&& c.trackpad_type is Type4 || c.trackpad_type is Type5
            &&& c.trackpad_type is Type4 ==> c.wellspring_msg == (WellspringMsg {
                size: 2, req_val: 0x302, req_idx: 2, switch_idx: 1, switch_on: 1, switch_off: 0,
            })
            &&& c.trackpad_type is Type5 ==> c.wellspring_msg == (WellspringMsg {
                size: 2, req_val: 0x302, req_idx: 1, switch_idx: 1, switch_on: 1, switch_off: 0,
            })
        }),
{
    lemma_find_entry_bounds(product_id, 0);
    let t = spec_config_table();
    assert(forall|k: int| 0 <= k < t.len() ==> (#[trigger] t[k]).trackpad_type is Type4 || t[k].trackpad_type is Type5);
    assert(forall|k: int| 0 <= k < t.len() && (#[trigger] t[k]).trackpad_type is Type4 ==> t[k].wellspring_msg == (WellspringMsg {
        size: 2, req_val: 0x302, req_idx: 2, switch_idx: 1, switch_on: 1, switch_off: 0,
    }));
    assert(forall|k: int| 0 <= k < t.len() && (#[trigger] t[k]).trackpad_type is Type5 ==> t[k].wellspring_msg == (WellspringMsg {
        size: 2, req_val: 0x302, req_idx: 1, switch_idx: 1, switch_on: 1, switch_off: 0,
    }));
}

} // verus!
