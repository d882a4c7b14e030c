use hidpp::hiddev::usage_code;
use hidpp::hiddev::usage_page;
use hidpp::hiddev::usage_refs_for_report;
use hidpp::hiddev::ApplicationCollection;
use hidpp::hiddev::ReportIds;
use hidpp::hiddev::ReportInfo;
use hidpp::hiddev::ReportType;
use hidpp::hiddev::UsageRef;
use hidpp::hiddev::UsageRefMulti;
use hidpp::report::FapBuilder;
use hidpp::report::HidppReport;

#[test]
fn usage_page_and_code_split_the_value() {
    let usage: i32 = 0x1234_5678;
    assert_eq!(usage_page(usage), 0x1234);
    assert_eq!(usage_code(usage), 0x5678);
    // A negative value is read as its 32-bit pattern.
    let usage: i32 = -1;
    assert_eq!(usage_page(usage), 0xFFFF);
    assert_eq!(usage_code(usage), 0xFFFF);
}

#[test]
fn find_returns_the_first_matching_page() {
    let usages: Vec<i32> = vec![0x0001_0000, 0xFF43_0202u32 as i32, 0xFF43_0303u32 as i32];
    let found = ApplicationCollection::find(&usages, 0xFF43).unwrap();
    assert_eq!(
        found,
        ApplicationCollection {
            app_index: 1,
            usage_code: 0x0202,
        }
    );
}

#[test]
fn find_reports_no_match() {
    let usages: Vec<i32> = vec![0x0001_0000, 0x000C_0001];
    assert_eq!(ApplicationCollection::find(&usages, 0xFF43), None);
    assert_eq!(ApplicationCollection::find(&vec![], 0xFF43), None);
}

#[test]
fn report_identifiers() {
    assert_eq!(ReportIds::Short.value(), 0x10);
    assert_eq!(ReportIds::Long.value(), 0x11);
    assert_eq!(ReportIds::VeryLong.value(), 0x12);
    assert_eq!(ReportType::Input.value(), 1);
    assert_eq!(ReportType::Output.value(), 2);
    assert_eq!(ReportType::Feature.value(), 3);
    assert_eq!(ReportType::try_from_value(2), Some(ReportType::Output));
    assert_eq!(ReportType::try_from_value(9), None);
}

#[test]
fn usage_refs_marshal_the_long_report() {
    let fap = FapBuilder::new()
        .feature_index(0x05)
        .funcindex(0x01)
        .params(&[0x10, 0x20, 0x30]);
    let report = HidppReport::new(fap);
    let refs = usage_refs_for_report(&report);
    assert_eq!(refs.len(), 20);
    for (i, uref) in refs.iter().enumerate() {
        assert_eq!(uref.report_type, 2);
        assert_eq!(uref.report_id, 0x11);
        assert_eq!(uref.field_index, i as u32);
        assert_eq!(uref.usage_index, 0);
        assert_eq!(uref.usage_code, 0x02);
    }
    assert_eq!(refs[0].value, 0x10);
    assert_eq!(refs[1].value, 0x20);
    assert_eq!(refs[2].value, 0x30);
    assert_eq!(refs[3].value, 0);
}

#[test]
fn report_info_display() {
    let info = ReportInfo {
        report_type: 2,
        report_id: 0x11,
        num_fields: 20,
    };
    assert_eq!(
        info.display_string(),
        "{ num_fields: 20, report_id: 0x11, report_type: 0x2 }"
    );
}

#[test]
fn usage_ref_display_uses_upper_case_hex() {
    let uref = UsageRef {
        report_type: 10,
        report_id: 0x11,
        field_index: 2,
        usage_index: 0,
        usage_code: 0xFF43,
        value: -1,
    };
    assert_eq!(
        uref.display_string(),
        "{ field_index: 0x2, report_id: 0x11, report_type: 0xA, usage_code: 0xFF43, usage_index: 0x0, value: 0xFFFFFFFF }"
    );
}

#[test]
fn usage_ref_multi_display_stops_at_the_last_non_zero_value() {
    let uref = UsageRef {
        report_type: 1,
        report_id: 2,
        field_index: 3,
        usage_index: 4,
        usage_code: 5,
        value: 6,
    };
    let mut multi = UsageRefMulti {
        uref,
        num_values: 3,
        values: [0; 1024],
    };
    multi.values[0] = 0x1A;
    multi.values[2] = 0x2B;
    let s = multi.display_string();
    assert_eq!(
        s,
        "{ num_values: 3, uref: { field_index: 0x3, report_id: 0x2, report_type: 0x1, usage_code: 0x5, usage_index: 0x4, value: 0x6 }, values: 0x1a, 0x0, 0x2b }"
    );
}

#[test]
fn usage_ref_multi_display_with_all_zero_values() {
    let uref = UsageRef {
        report_type: 1,
        report_id: 2,
        field_index: 3,
        usage_index: 4,
        usage_code: 5,
        value: 6,
    };
    let multi = UsageRefMulti {
        uref,
        num_values: 0,
        values: [0; 1024],
    };
    let s = multi.display_string();
    assert_eq!(
        s,
        "{ num_values: 0, uref: { field_index: 0x3, report_id: 0x2, report_type: 0x1, usage_code: 0x5, usage_index: 0x4, value: 0x6 }, values: }"
    );
}
