use amt_ptp::constants::{REPORTID_DEVICE_CAPS, REPORTID_FUNC_SWITCH, REPORTID_INPUT_MODE, REPORTID_PTPHQA};
use amt_ptp::feature::{get_feature_report, parse_set_feature, FeatureError, ReportingState, SetFeatureRequest};
use amt_ptp::hid::DEFAULT_HQA_BLOB;

#[test]
fn get_device_caps() {
    assert_eq!(get_feature_report(REPORTID_DEVICE_CAPS, 3), Ok(vec![7, 5, 0]));
    assert_eq!(get_feature_report(REPORTID_DEVICE_CAPS, 64), Ok(vec![7, 5, 0]));
    assert_eq!(get_feature_report(REPORTID_DEVICE_CAPS, 2), Err(FeatureError::BufferTooSmall));
}

#[test]
fn get_hqa_blob() {
    let r = get_feature_report(REPORTID_PTPHQA, 257).unwrap();
    assert_eq!(r.len(), 257);
    assert_eq!(r[0], REPORTID_PTPHQA);
    assert_eq!(&r[1..], &DEFAULT_HQA_BLOB[..]);
    assert_eq!(get_feature_report(REPORTID_PTPHQA, 256), Err(FeatureError::BufferTooSmall));
}

#[test]
fn get_unknown_feature() {
    assert_eq!(get_feature_report(0x09, 1000), Err(FeatureError::NotSupported));
    assert_eq!(get_feature_report(REPORTID_INPUT_MODE, 1000), Err(FeatureError::NotSupported));
}

#[test]
fn set_input_mode() {
    assert_eq!(parse_set_feature(REPORTID_INPUT_MODE, &[4, 3]), Ok(SetFeatureRequest::InputMode { ptp: true }));
    assert_eq!(parse_set_feature(REPORTID_INPUT_MODE, &[4, 0]), Ok(SetFeatureRequest::InputMode { ptp: false }));
    assert_eq!(parse_set_feature(REPORTID_INPUT_MODE, &[4, 2, 9]), Ok(SetFeatureRequest::InputMode { ptp: false }));
    assert_eq!(parse_set_feature(REPORTID_INPUT_MODE, &[4]), Err(FeatureError::BufferTooSmall));
}

#[test]
fn set_selective_reporting() {
    assert_eq!(
        parse_set_feature(REPORTID_FUNC_SWITCH, &[6, 3]),
        Ok(SetFeatureRequest::SelectiveReporting { button: true, surface: true })
    );
    assert_eq!(
        parse_set_feature(REPORTID_FUNC_SWITCH, &[6, 2]),
        Ok(SetFeatureRequest::SelectiveReporting { button: false, surface: true })
    );
    assert_eq!(parse_set_feature(REPORTID_FUNC_SWITCH, &[]), Err(FeatureError::BufferTooSmall));
    assert_eq!(parse_set_feature(REPORTID_DEVICE_CAPS, &[7, 5, 0]), Err(FeatureError::NotSupported));
}

#[test]
fn reporting_state_transitions() {
    let mut s = ReportingState::new();
    assert_eq!(s, ReportingState { ptp_input_on: false, ptp_report_touch: true, ptp_report_button: true });
    s.apply(SetFeatureRequest::InputMode { ptp: true });
    assert!(s.ptp_input_on);
    s.apply(SetFeatureRequest::SelectiveReporting { button: false, surface: true });
    assert_eq!(s, ReportingState { ptp_input_on: true, ptp_report_touch: true, ptp_report_button: false });
    s.apply(SetFeatureRequest::InputMode { ptp: false });
    assert!(!s.ptp_input_on);
    assert!(s.ptp_report_touch);
}
