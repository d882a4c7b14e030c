use hidpp::error::CommandError;
use hidpp::error::Hidpp20Error;
use hidpp::features::feature_error_of;
use hidpp::features::devicetypename::DeviceNameCount;
use hidpp::features::devicetypename::DeviceType;
use hidpp::features::devicetypename::DeviceTypes;
use hidpp::features::illuminationlight::ControlInfo;
use hidpp::features::illuminationlight::ControlLevels;
use hidpp::features::illuminationlight::ControlLevelsFlags;
use hidpp::features::illuminationlight::ControlTargetLevels;
use hidpp::features::illuminationlight::ControlValue;
use hidpp::features::illuminationlight::IlluminationState;
use hidpp::features::illuminationlight::LevelsRequest;
use hidpp::features::root::RootFeature;
use hidpp::features::root::RootFeatureType;
use hidpp::features::root::RootProtocolVersion;
use hidpp::features::FeatureError;
use hidpp::report::HidppReport;

fn answer_with(params: &[u8]) -> HidppReport {
    let mut bytes = vec![0u8; 20];
    bytes[0] = 0x11;
    bytes[2] = 0x05;
    bytes[3] = 0x12;
    for (i, b) in params.iter().enumerate() {
        bytes[4 + i] = *b;
    }
    HidppReport::from_bytes(&bytes).unwrap()
}

#[test]
fn root_feature_decodes() {
    let report = answer_with(&[0x07, 0b0100_1000, 0x03]);
    let feature = RootFeature::from_report(&report);
    assert_eq!(feature.feature_index, 0x07);
    assert_eq!(feature.feature_version, 0x03);
    assert!(feature.feature_type.hidden);
    assert!(feature.feature_type.compl_deact);
    assert!(!feature.feature_type.manuf_deact);
    assert!(!feature.feature_type.eng);
    assert!(!feature.feature_type.obsl);
}

#[test]
fn root_feature_type_flags() {
    let t = RootFeatureType::from_byte(0b1111_1000);
    assert!(t.compl_deact && t.manuf_deact && t.eng && t.hidden && t.obsl);
    let t = RootFeatureType::from_byte(0);
    assert!(!(t.compl_deact || t.manuf_deact || t.eng || t.hidden || t.obsl));
}

#[test]
fn root_protocol_version_decodes() {
    let report = answer_with(&[4, 2, 0x5A]);
    let version = RootProtocolVersion::from_report(&report);
    assert_eq!(version.protocol_num, 4);
    assert_eq!(version.target_sw, 2);
    assert_eq!(version.ping_data, 0x5A);
}

#[test]
fn device_type_and_name_decode() {
    let report = answer_with(&[16]);
    let device_type = DeviceType::from_report(&report);
    assert_eq!(device_type.device_type, Some(DeviceTypes::IlluminationLight));

    let report = answer_with(&[200]);
    let device_type = DeviceType::from_report(&report);
    assert_eq!(device_type.device_type, None);

    let report = answer_with(&[18]);
    assert_eq!(DeviceNameCount::from_report(&report).device_name_count, 18);
}

#[test]
fn device_types_cover_all_codes() {
    assert_eq!(DeviceTypes::try_from_byte(0), Some(DeviceTypes::Keyboard));
    assert_eq!(DeviceTypes::try_from_byte(19), Some(DeviceTypes::Adapter));
    assert_eq!(DeviceTypes::try_from_byte(20), None);
}

#[test]
fn illumination_state_reads_lowest_bit() {
    let report = answer_with(&[0b1110]);
    assert_eq!(IlluminationState::from_report(&report).state, 0);
    let report = answer_with(&[0b0011]);
    assert_eq!(IlluminationState::from_report(&report).state, 1);
    let state = IlluminationState { state: 0xFF };
    assert_eq!(state.to_params(), vec![1]);
}

#[test]
fn control_info_decodes_big_endian() {
    let report = answer_with(&[0b101, 0x01, 0x02, 0x0A, 0x0B, 0x00, 0x10, 0xF7]);
    let info = ControlInfo::from_report(&report);
    assert!(info.capabilities.has_events);
    assert!(!info.capabilities.has_linear_levels);
    assert!(info.capabilities.has_non_linear_levels);
    assert_eq!(info.min, 0x0102);
    assert_eq!(info.max, 0x0A0B);
    assert_eq!(info.res, 0x0010);
    assert_eq!(info.max_levels, 0x07);
}

#[test]
fn control_value_round_trips() {
    let report = answer_with(&[0x12, 0x34]);
    let value = ControlValue::from_report(&report);
    assert_eq!(value.value, 0x1234);
    assert_eq!(value.to_params(), vec![0x12, 0x34]);
}

#[test]
fn levels_flags_round_trip() {
    let flags = ControlLevelsFlags::from_byte(0b1010_0001);
    assert!(flags.linear);
    assert_eq!(flags.valid_count, 0b101);
    assert_eq!(flags.to_byte(), 0b1010_0001);
}

#[test]
fn target_levels_round_trip() {
    let target = ControlTargetLevels::from_byte(0x3A);
    assert_eq!(target.start_index, 0x3);
    assert_eq!(target.level_count, 0xA);
    assert_eq!(target.to_byte(), 0x3A);
}

#[test]
fn levels_decode_linear_and_non_linear() {
    // Flags byte 0x21: one valid entry, linear.
    let report = answer_with(&[0x21, 0x12, 0x00, 0x0A, 0x01, 0x00, 0x00, 0x14]);
    match ControlLevels::from_report(&report) {
        ControlLevels::Linear(l) => {
            assert!(l.flags.linear);
            assert_eq!(l.flags.valid_count, 1);
            assert_eq!(l.target_levels.start_index, 1);
            assert_eq!(l.target_levels.level_count, 2);
            assert_eq!(l.level_min_value, 0x000A);
            assert_eq!(l.level_max_value, 0x0100);
            assert_eq!(l.level_step_value, 0x0014);
        }
        ControlLevels::NonLinear(_) => panic!("expected a linear table"),
    }

    let report = answer_with(&[
        0x40, 0x07, 0, 1, 0, 2, 0, 3, 0, 4, 0, 5, 0, 6, 0, 7,
    ]);
    match ControlLevels::from_report(&report) {
        ControlLevels::NonLinear(n) => {
            assert_eq!(n.flags.valid_count, 2);
            assert_eq!(n.level_0_value, 1);
            assert_eq!(n.level_6_value, 7);
        }
        ControlLevels::Linear(_) => panic!("expected a non-linear table"),
    }
}

#[test]
fn levels_encode_sixteen_bytes() {
    let report = answer_with(&[0x21, 0x12, 0x00, 0x0A, 0x01, 0x00, 0x00, 0x14]);
    let levels = ControlLevels::from_report(&report);
    let bytes = levels.to_bytes();
    assert_eq!(
        bytes,
        vec![0x21, 0x12, 0x00, 0x0A, 0x01, 0x00, 0x00, 0x14, 0, 0, 0, 0, 0, 0, 0, 0]
    );
}

#[test]
fn levels_request_packs_high_nibble() {
    let req = LevelsRequest { start_index: 3 };
    assert_eq!(req.to_params(), vec![0x30]);
}

#[test]
fn feature_errors_keep_the_protocol_code() {
    assert_eq!(
        feature_error_of(CommandError::Protocol(Hidpp20Error::OutOfRange)),
        FeatureError::Hidpp20(Hidpp20Error::OutOfRange)
    );
    assert_eq!(
        feature_error_of(CommandError::TimedOut),
        FeatureError::Internal(CommandError::TimedOut)
    );
}
