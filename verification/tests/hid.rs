use amt_ptp::constants::{
    REPORTID_DEVICE_CAPS, REPORTID_FUNC_SWITCH, REPORTID_INPUT_MODE, REPORTID_MULTITOUCH,
    REPORTID_PTPHQA, REPORTID_UMAPP_CONF,
};
use amt_ptp::hid::{
    build_report_descriptor, BEGIN_COLL, DEFAULT_HQA_BLOB, END_COLL, REPORT_DESCRIPTOR_LEN,
    REPORT_ID, USAGE, USAGE_PAGE,
};

#[test]
fn hqa_blob_length() {
    assert_eq!(DEFAULT_HQA_BLOB.len(), 256);
}

#[test]
fn hqa_blob_first_bytes() {
    assert_eq!(DEFAULT_HQA_BLOB[0], 0xfc);
    assert_eq!(DEFAULT_HQA_BLOB[1], 0x28);
    assert_eq!(DEFAULT_HQA_BLOB[2], 0xfe);
}

#[test]
fn hqa_blob_last_bytes() {
    // Last 3 bytes: 0xe5, 0x24, 0xc2
    assert_eq!(DEFAULT_HQA_BLOB[253], 0xe5);
    assert_eq!(DEFAULT_HQA_BLOB[254], 0x24);
    assert_eq!(DEFAULT_HQA_BLOB[255], 0xc2);
}

#[test]
fn descriptor_builds_for_mt2() {
    // MT2 dimensions: X logical 7612, Y logical 5065
    // Physical: X 1600 (16.00 cm), Y 1149 (11.49 cm)
    let desc = build_report_descriptor(7612, 5065, 1600, 1149);

    // Should start with Digitizer Touch Pad TLC
    assert_eq!(desc[0], USAGE_PAGE);
    assert_eq!(desc[1], 0x0d); // Digitizer
    assert_eq!(desc[2], USAGE);
    assert_eq!(desc[3], 0x05); // Touch Pad
    assert_eq!(desc[4], BEGIN_COLL);
    assert_eq!(desc[5], 0x01); // Application

    // Should end with END_COLLECTION
    assert_eq!(*desc.last().unwrap(), END_COLL);

    // Should be a reasonable size
    assert!(desc.len() > 300, "descriptor too short: {} bytes", desc.len());
    assert!(desc.len() < 700, "descriptor too long: {} bytes", desc.len());
}

#[test]
fn descriptor_contains_all_report_ids() {
    let desc = build_report_descriptor(7612, 5065, 1600, 1149);

    // Check that all report IDs are present
    let has_report_id = |id: u8| {
        desc.windows(2).any(|w| w[0] == REPORT_ID && w[1] == id)
    };
    assert!(has_report_id(REPORTID_MULTITOUCH));
    assert!(has_report_id(REPORTID_DEVICE_CAPS));
    assert!(has_report_id(REPORTID_PTPHQA));
    assert!(has_report_id(REPORTID_INPUT_MODE));
    assert!(has_report_id(REPORTID_FUNC_SWITCH));
    assert!(has_report_id(REPORTID_UMAPP_CONF));
}

#[test]
fn descriptor_length_is_fixed_and_ids_at_known_offsets() {
    for (xl, yl, xp, yp) in [(7612, 5065, 1600, 1149), (0, 0, 0, 0), (0xffff, 0x1234, 0xabcd, 1)] {
        let d = build_report_descriptor(xl, yl, xp, yp);
        assert_eq!(d.len(), REPORT_DESCRIPTOR_LEN);
        assert_eq!(d.len(), 518);
        for (k, id) in [(6, REPORTID_MULTITOUCH), (411, REPORTID_DEVICE_CAPS), (431, REPORTID_PTPHQA),
                        (454, REPORTID_INPUT_MODE), (475, REPORTID_FUNC_SWITCH), (502, REPORTID_UMAPP_CONF)] {
            assert_eq!(d[k], REPORT_ID);
            assert_eq!(d[k + 1], id);
        }
    }
}

#[test]
fn descriptor_first_finger_carries_maxima_little_endian() {
    let d = build_report_descriptor(7612, 5065, 1600, 1149);
    // After the 8-byte head, the first finger collection: logical max X at
    // bytes 8+39..8+42, physical max X at 8+50..8+53.
    assert_eq!(&d[8 + 39..8 + 42], &[0x26, (7612u16 & 0xff) as u8, (7612u16 >> 8) as u8]);
    assert_eq!(&d[8 + 50..8 + 53], &[0x46, (1600u16 & 0xff) as u8, (1600u16 >> 8) as u8]);
    assert_eq!(&d[8 + 57..8 + 60], &[0x46, (1149u16 & 0xff) as u8, (1149u16 >> 8) as u8]);
    assert_eq!(&d[8 + 60..8 + 63], &[0x26, (5065u16 & 0xff) as u8, (5065u16 >> 8) as u8]);
}

#[test]
fn descriptor_maxima_offsets() {
    let a = build_report_descriptor(0x1234, 0x5678, 0x9abc, 0xdef0);
    let b = build_report_descriptor(0, 0, 0, 0);
    let mut maxima = vec![false; a.len()];
    for s in [8usize, 82, 156, 224, 298] {
        assert_eq!(&a[s + 40..s + 42], &0x1234u16.to_le_bytes());
        assert_eq!(&a[s + 51..s + 53], &0x9abcu16.to_le_bytes());
        assert_eq!(&a[s + 58..s + 60], &0xdef0u16.to_le_bytes());
        assert_eq!(&a[s + 61..s + 63], &0x5678u16.to_le_bytes());
        for r in [40, 41, 51, 52, 58, 59, 61, 62] {
            maxima[s + r] = true;
        }
    }
    for k in 0..a.len() {
        if !maxima[k] {
            assert_eq!(a[k], b[k], "byte {k}");
        }
    }
}
