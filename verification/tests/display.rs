use hidpp::hiddev::ApplicationCollection;
use hidpp::hiddev::FieldInfo;
use hidpp::hiddev::InfoVec;

#[test]
fn application_collection_display() {
    let app = ApplicationCollection {
        app_index: 13,
        usage_code: 0x0678,
    };
    let s = format!("A {} C", app.display_string());
    assert_eq!(s, "A { app_index: 13, usage_code: 0x678 } C");
}

#[test]
fn field_infos() {
    let mut fis = InfoVec::default();
    let mut s = format!("F {} S", fis.display_string());
    assert_eq!(s, "F [] S");

    fis.0.push(FieldInfo {
        application: 1,
        field_index: 2,
        flags: 3,
        logical: 4,
        logical_maximum: 5,
        logical_minimum: 4,
        maxusage: 6,
        physical: 7,
        physical_maximum: 8,
        physical_minimum: 7,
        report_id: 9,
        report_type: 10,
        unit: 11,
        unit_exponent: 12,
    });
    s = format!("F {} S", fis.display_string());
    assert_eq!(s, "F [ { report_type: 0xa, report_id: 0x9, field_index: 2, maxusage: 6, flags: 0x3, physical: 7, logical: 4, application: 0x1, logical_minimum: 4, logical_maximum: 5, physical_minimum: 7, physical_maximum: 8, unit_exponent: 12, unit: 11 } ] S");
}

#[test]
fn field_info() {
    let s = format!(
        "F {} S",
        FieldInfo {
            application: 1,
            field_index: 2,
            flags: 3,
            logical: 4,
            logical_maximum: 5,
            logical_minimum: 4,
            maxusage: 6,
            physical: 7,
            physical_maximum: 8,
            physical_minimum: 7,
            report_id: 9,
            report_type: 10,
            unit: 11,
            unit_exponent: 12,
        }
        .display_string()
    );
    assert_eq!(s, "F { report_type: 0xa, report_id: 0x9, field_index: 2, maxusage: 6, flags: 0x3, physical: 7, logical: 4, application: 0x1, logical_minimum: 4, logical_maximum: 5, physical_minimum: 7, physical_maximum: 8, unit_exponent: 12, unit: 11 } S");
}
