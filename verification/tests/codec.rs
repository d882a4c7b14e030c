use hidpp::error::CommandError;
use hidpp::error::Hidpp20Error;
use hidpp::error::HidppError;
use hidpp::report::FapBuilder;
use hidpp::report::HidppReport;
use hidpp::report::REPORT_ID_HIDPP_LONG;
use hidpp::report::REPORT_ID_HIDPP_VERY_LONG;
use hidpp::sender::translate_answer;

fn encode(report: &HidppReport, len: usize) -> Vec<u8> {
    let mut buf = vec![0u8; len];
    report.copy_into(&mut buf);
    buf
}

#[test]
fn round_trip_long() {
    let fap = FapBuilder::new()
        .feature_index(0x05)
        .funcindex(0x01)
        .params(&[1, 2, 3]);
    let mut report = HidppReport::new(fap);
    report.device_index = 0x07;
    let bytes = encode(&report, 20);
    let decoded = HidppReport::from_bytes(&bytes).unwrap();
    assert_eq!(decoded, report);
}

#[test]
fn round_trip_very_long() {
    let params: Vec<u8> = (0..60).map(|i| (i as u8).wrapping_mul(3)).collect();
    let fap = FapBuilder::new()
        .feature_index(0x21)
        .funcindex(0x0F)
        .params(&params);
    let report = HidppReport::new(fap);
    assert_eq!(report.report_id, REPORT_ID_HIDPP_VERY_LONG);
    let bytes = encode(&report, 64);
    let decoded = HidppReport::from_bytes(&bytes).unwrap();
    assert_eq!(decoded, report);
}

#[test]
fn round_trip_truncates_to_wire_length() {
    // 20 parameter bytes sent over the LONG format: only the 16 the wire
    // carries survive, the rest decode as zero.
    let params: Vec<u8> = (1..=20).collect();
    let fap = FapBuilder::new().feature_index(0x03).funcindex(0x02).params(&params);
    let report = HidppReport::new(fap);
    let bytes = encode(&report, 20);
    let decoded = HidppReport::from_bytes(&bytes).unwrap();
    for i in 0..16 {
        assert_eq!(decoded.fap.params[i], (i + 1) as u8);
    }
    for i in 16..60 {
        assert_eq!(decoded.fap.params[i], 0);
    }
}

#[test]
fn encode_uses_the_length_the_report_id_implies() {
    let fap = FapBuilder::new().feature_index(0x05).funcindex(0x01).params(&[9]);
    let report = HidppReport::new(fap);
    let bytes = report.encode();
    assert_eq!(bytes.len(), 20);
    assert_eq!(HidppReport::from_bytes(&bytes).unwrap(), report);

    let fap = FapBuilder::new().feature_index(0x05).funcindex(0x01).params(&[9; 20]);
    let report = HidppReport::new(fap);
    let bytes = report.encode();
    assert_eq!(bytes.len(), 64);
    assert_eq!(HidppReport::from_bytes(&bytes).unwrap(), report);
}

#[test]
fn report_id_selection() {
    let short = FapBuilder::new().params(&[0u8; 16]);
    assert_eq!(HidppReport::new(short).report_id, REPORT_ID_HIDPP_LONG);
    let none = FapBuilder::new();
    assert_eq!(HidppReport::new(none).report_id, REPORT_ID_HIDPP_LONG);
    let long = FapBuilder::new().params(&[0u8; 17]);
    assert_eq!(HidppReport::new(long).report_id, REPORT_ID_HIDPP_VERY_LONG);
    let full = FapBuilder::new().params(&[0u8; 60]);
    assert_eq!(HidppReport::new(full).report_id, REPORT_ID_HIDPP_VERY_LONG);
}

#[test]
fn encode_root_request_example() {
    // Root request, feature 0x00, function 0x00, no parameters, client id
    // 0x02: the LONG wire image is fixed.
    let fap = FapBuilder::new().feature_index(0x00).funcindex(0x00);
    let mut report = HidppReport::new(fap);
    assert_eq!(report.report_id, REPORT_ID_HIDPP_LONG);
    report.device_index = 0xFF;
    let bytes = encode(&report, 20);
    let mut expected = vec![0u8; 20];
    expected[0] = 0x11;
    expected[1] = 0xFF;
    expected[2] = 0x00;
    expected[3] = 0x02;
    assert_eq!(bytes, expected);
}

#[test]
fn decode_error_answer_example() {
    // The error answer to the root request decodes and translates into the
    // OutOfRange protocol error (code 3).
    let mut bytes = vec![0u8; 20];
    bytes[0] = 0x11;
    bytes[1] = 0x00;
    bytes[2] = 0xFF;
    bytes[3] = 0x00;
    bytes[4] = 0x02;
    bytes[5] = 0x03;
    let report = HidppReport::from_bytes(&bytes).unwrap();
    assert_eq!(report.fap.feature_index, 0xFF);
    let translated = translate_answer(report);
    assert_eq!(
        translated,
        Err(CommandError::Protocol(Hidpp20Error::OutOfRange))
    );
}

#[test]
fn decode_rejects_short_input() {
    assert_eq!(HidppReport::from_bytes(&[]), Err(HidppError::BadReportSize));
    assert_eq!(
        HidppReport::from_bytes(&[0x11]),
        Err(HidppError::BadReportSize)
    );
}

#[test]
fn decode_pads_short_payload_with_zero() {
    let report = HidppReport::from_bytes(&[0x11, 0x01]).unwrap();
    assert_eq!(report.report_id, 0x11);
    assert_eq!(report.device_index, 0x01);
    assert_eq!(report.fap.feature_index, 0);
    assert_eq!(report.fap.funcindex_clientid, 0);
    assert_eq!(report.fap.params, vec![0u8; 60]);

    let report = HidppReport::from_bytes(&[0x10, 0x02, 0xAB]).unwrap();
    assert_eq!(report.fap.feature_index, 0xAB);
    assert_eq!(report.fap.funcindex_clientid, 0);
}

#[test]
fn builder_counts_copied_params() {
    let b = FapBuilder::new();
    assert_eq!(b.copied_params_len(), 0);
    let b = b.params(&[9, 9, 9, 9]);
    assert_eq!(b.copied_params_len(), 4);
}

#[test]
fn builder_stamps_client_id() {
    let fap = FapBuilder::new().funcindex(0x01).build();
    assert_eq!(fap.funcindex_clientid, 0x12);
    let fap = FapBuilder::new().funcindex(0x00).build();
    assert_eq!(fap.funcindex_clientid, 0x02);
}

#[test]
fn has_sw_id_reads_low_nibble() {
    let own = FapBuilder::new().funcindex(0x00).build();
    assert!(own.has_sw_id());
    let broadcast = FapBuilder::new().build();
    assert!(!broadcast.has_sw_id());
    let report = HidppReport::new(FapBuilder::new().funcindex(0x03));
    assert!(report.has_sw_id());
}

#[test]
fn param_at_pads_with_zero() {
    let fap = FapBuilder::new().params(&[7, 8]).build();
    assert_eq!(fap.param_at(0), 7);
    assert_eq!(fap.param_at(1), 8);
    assert_eq!(fap.param_at(2), 0);
    assert_eq!(fap.param_at(59), 0);
    assert_eq!(fap.param_at(200), 0);
}

#[test]
fn translate_answer_passes_success_through() {
    let fap = FapBuilder::new().feature_index(0x05).funcindex(0x01);
    let report = HidppReport::new(fap);
    let expected = report.clone();
    assert_eq!(translate_answer(report), Ok(expected));
}

#[test]
fn hidpp20_error_codes() {
    assert_eq!(Hidpp20Error::from_code(1), Hidpp20Error::Unknown);
    assert_eq!(Hidpp20Error::from_code(2), Hidpp20Error::InvalidArgument);
    assert_eq!(Hidpp20Error::from_code(3), Hidpp20Error::OutOfRange);
    assert_eq!(Hidpp20Error::from_code(4), Hidpp20Error::HWError);
    assert_eq!(Hidpp20Error::from_code(0), Hidpp20Error::Unrecognized(0));
    assert_eq!(Hidpp20Error::from_code(9), Hidpp20Error::Unrecognized(9));
}
