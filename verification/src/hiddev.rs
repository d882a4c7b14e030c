//! Models of the character-device records the transport exchanges with the
//! kernel, their record strings, and the pure part of device enumeration.
//! The calls that move these records to and from the kernel live outside
//! the library; everything here works on plain values.

use vstd::prelude::*;

use crate::report::byte_at;
use crate::report::HidppReport;
use crate::report::LONG_LENGTH;
use crate::strfmt::i16_bits;
use crate::strfmt::i32_dec_string;
use crate::strfmt::i32_hex_upper_string;
use crate::strfmt::spec_i16_bits;
use crate::strfmt::spec_dec_digits;
use crate::strfmt::spec_hex_alt;
use crate::strfmt::spec_hex_alt_upper;
use crate::strfmt::spec_i32_bits;
use crate::strfmt::spec_i32_dec;
use crate::strfmt::u32_dec_string;
use crate::strfmt::u32_hex_string;
use crate::strfmt::u32_hex_upper_string;
use crate::strfmt::i32_bits;

verus! {

/// One raw event record of the character device.
#[derive(Clone, Copy, Debug, PartialEq, Eq, Structural)]
pub struct Event {
    pub hid: u32,
    pub value: i32,
}

/// The device's identity record.
#[derive(Clone, Copy, Debug, PartialEq, Eq, Structural)]
pub struct Devinfo {
    pub bustype: u32,
    pub busnum: u32,
    pub devnum: u32,
    pub ifnum: u32,
    pub vendor: i16,
    pub product: i16,
    pub version: i16,
    pub num_applications: u32,
}

impl Devinfo {
    /// The record string, every field in upper-case hexadecimal; the
    /// signed fields show their 16-bit patterns.
    pub open spec fn spec_display(self) -> Seq<char> {
        ("{ busnum: ")@ + spec_hex_alt_upper(self.busnum as nat) + (", bustype: ")@
            + spec_hex_alt_upper(self.bustype as nat) + (", devnum: ")@ + spec_hex_alt_upper(
            self.devnum as nat,
        ) + (", ifnum: ")@ + spec_hex_alt_upper(self.ifnum as nat) + (", num_applications: ")@
            + spec_hex_alt_upper(self.num_applications as nat) + (", product: ")@
            + spec_hex_alt_upper(spec_i16_bits(self.product as int) as nat) + (", vendor: ")@
            + spec_hex_alt_upper(spec_i16_bits(self.vendor as int) as nat) + (", version: ")@
            + spec_hex_alt_upper(spec_i16_bits(self.version as int) as nat) + (" }")@
    }

    pub fn display_string(&self) -> (r: String)
        ensures
            r@ == self.spec_display(),
    {
        let mut s = String::from_str("{ busnum: ");
        let busnum = u32_hex_upper_string(self.busnum);
        s.append(busnum.as_str());
        s.append(", bustype: ");
        let bustype = u32_hex_upper_string(self.bustype);
        s.append(bustype.as_str());
        s.append(", devnum: ");
        let devnum = u32_hex_upper_string(self.devnum);
        s.append(devnum.as_str());
        s.append(", ifnum: ");
        let ifnum = u32_hex_upper_string(self.ifnum);
        s.append(ifnum.as_str());
        s.append(", num_applications: ");
        let num_applications = u32_hex_upper_string(self.num_applications);
        s.append(num_applications.as_str());
        s.append(", product: ");
        let product = u32_hex_upper_string(i16_bits(self.product) as u32);
        s.append(product.as_str());
        s.append(", vendor: ");
        let vendor = u32_hex_upper_string(i16_bits(self.vendor) as u32);
        s.append(vendor.as_str());
        s.append(", version: ");
        let version = u32_hex_upper_string(i16_bits(self.version) as u32);
        s.append(version.as_str());
        s.append(" }");
        s
    }
}

/// A string descriptor record.
pub struct StringDescriptor {
    pub index: i32,
    pub value: [char; 256],
}

/// Addresses one report of the device.
#[derive(Clone, Copy, Debug, PartialEq, Eq, Structural)]
pub struct ReportInfo {
    pub report_type: u32,
    pub report_id: u32,
    pub num_fields: u32,
}

impl ReportInfo {
    /// The record string: the field count in decimal, the identifiers in
    /// upper-case hexadecimal.
    pub open spec fn spec_display(self) -> Seq<char> {
        ("{ num_fields: ")@ + spec_dec_digits(self.num_fields as nat) + (", report_id: ")@
            + spec_hex_alt_upper(self.report_id as nat) + (", report_type: ")@
            + spec_hex_alt_upper(self.report_type as nat) + (" }")@
    }

    pub fn display_string(&self) -> (r: String)
        ensures
            r@ == self.spec_display(),
    {
        let mut s = String::from_str("{ num_fields: ");
        let num_fields = u32_dec_string(self.num_fields);
        s.append(num_fields.as_str());
        s.append(", report_id: ");
        let report_id = u32_hex_upper_string(self.report_id);
        s.append(report_id.as_str());
        s.append(", report_type: ");
        let report_type = u32_hex_upper_string(self.report_type);
        s.append(report_type.as_str());
        s.append(" }");
        s
    }
}

/// The three wire report identifiers.
#[derive(Clone, Copy, Debug, PartialEq, Eq, Structural)]
pub enum ReportIds {
    Short,
    Long,
    VeryLong,
}

impl ReportIds {
    pub open spec fn spec_value(self) -> u8 {
        match self {
            ReportIds::Short => 0x10,
            ReportIds::Long => 0x11,
            ReportIds::VeryLong => 0x12,
        }
    }

    pub fn value(self) -> (r: u8)
        ensures
            r == self.spec_value(),
    {
        match self {
            ReportIds::Short => 0x10,
            ReportIds::Long => 0x11,
            ReportIds::VeryLong => 0x12,
        }
    }
}

/// The three report directions a usage can belong to.
#[derive(Clone, Copy, Debug, PartialEq, Eq, Structural)]
pub enum ReportType {
    Input,
    Output,
    Feature,
}

impl ReportType {
    pub open spec fn spec_value(self) -> u32 {
        match self {
            ReportType::Input => 1,
            ReportType::Output => 2,
            ReportType::Feature => 3,
        }
    }

    pub fn value(self) -> (r: u32)
        ensures
            r == self.spec_value(),
    {
        match self {
            ReportType::Input => 1,
            ReportType::Output => 2,
            ReportType::Feature => 3,
        }
    }

    /// The direction a raw value denotes, if any.
    pub open spec fn spec_from_value(v: u32) -> Option<ReportType> {
        if v == 1 {
            Some(ReportType::Input)
        } else if v == 2 {
            Some(ReportType::Output)
        } else if v == 3 {
            Some(ReportType::Feature)
        } else {
            None
        }
    }

    pub fn try_from_value(v: u32) -> (r: Option<ReportType>)
        ensures
            r == ReportType::spec_from_value(v),
    {
        if v == 1 {
            Some(ReportType::Input)
        } else if v == 2 {
            Some(ReportType::Output)
        } else if v == 3 {
            Some(ReportType::Feature)
        } else {
            None
        }
    }
}

/// The report directions under the name the raw bindings use for them.
pub type Type = ReportType;

/// Addresses one usage inside one report.
#[derive(Clone, Copy, Debug, PartialEq, Eq, Structural)]
pub struct UsageRef {
    pub report_type: u32,
    pub report_id: u32,
    pub field_index: u32,
    pub usage_index: u32,
    pub usage_code: u32,
    pub value: i32,
}

/// Sets the value of consecutive usages in one request.
pub struct UsageRefMulti {
    pub uref: UsageRef,
    pub num_values: u32,
    pub values: [i32; 1024],
}

impl Default for UsageRefMulti {
    fn default() -> (r: Self)
        ensures
            r.num_values == 0,
            forall|i: int| 0 <= i < 1024 ==> r.values@[i] == 0,
    {
        UsageRefMulti {
            uref: UsageRef {
                report_type: 0,
                report_id: 0,
                field_index: 0,
                usage_index: 0,
                usage_code: 0,
                value: 0,
            },
            num_values: 0,
            values: [0; 1024],
        }
    }
}

/// Describes one field of one report.
#[derive(Clone, Copy, Debug, PartialEq, Eq, Structural)]
pub struct FieldInfo {
    pub report_type: u32,
    pub report_id: u32,
    pub field_index: u32,
    pub maxusage: u32,
    pub flags: u32,
    /// physical usage for this field
    pub physical: u32,
    /// logical usage for this field
    pub logical: u32,
    /// application usage for this field
    pub application: u32,
    pub logical_minimum: i32,
    pub logical_maximum: i32,
    pub physical_minimum: i32,
    pub physical_maximum: i32,
    pub unit_exponent: u32,
    pub unit: u32,
}

/// Describes one collection of the report descriptor.
#[derive(Clone, Copy, Debug, PartialEq, Eq, Structural)]
pub struct CollectionInfo {
    pub index: u32,
    pub collection_type: u32,
    pub usage: u32,
    pub level: u32,
}

/// The flag values the device's flag control accepts.
#[derive(Clone, Copy, Debug, PartialEq, Eq, Structural)]
pub enum HIDIOCSFLAGFlag {
    UREF,
    REPORT,
    ALL,
}

impl HIDIOCSFLAGFlag {
    pub open spec fn spec_value(self) -> u8 {
        match self {
            HIDIOCSFLAGFlag::UREF => 0x1,
            HIDIOCSFLAGFlag::REPORT => 0x2,
            HIDIOCSFLAGFlag::ALL => 0x3,
        }
    }

    pub fn value(self) -> (r: u8)
        ensures
            r == self.spec_value(),
    {
        match self {
            HIDIOCSFLAGFlag::UREF => 0x1,
            HIDIOCSFLAGFlag::REPORT => 0x2,
            HIDIOCSFLAGFlag::ALL => 0x3,
        }
    }
}

/// The usage page packed into a raw application usage value: its upper
/// sixteen bits.
pub open spec fn spec_usage_page(usage: i32) -> u16 {
    (spec_i32_bits(usage as int) / 0x10000) as u16
}

/// The usage code packed into a raw application usage value: its lower
/// sixteen bits.
pub open spec fn spec_usage_code(usage: i32) -> u16 {
    (spec_i32_bits(usage as int) % 0x10000) as u16
}

pub fn usage_page(usage: i32) -> (r: u16)
    ensures
        r == spec_usage_page(usage),
{
    (i32_bits(usage) / 0x10000) as u16
}

pub fn usage_code(usage: i32) -> (r: u16)
    ensures
        r == spec_usage_code(usage),
{
    (i32_bits(usage) % 0x10000) as u16
}

/// An application collection of the device: where it sits in the device's
/// application table and the usage code it reported.
#[derive(Clone, Copy, Debug, PartialEq, Eq, Structural)]
pub struct ApplicationCollection {
    pub app_index: u32,
    pub usage_code: u16,
}

impl ApplicationCollection {
    /// The record string: the index in decimal, the usage code in
    /// hexadecimal.
    pub open spec fn spec_display(self) -> Seq<char> {
        ("{ app_index: ")@ + spec_dec_digits(self.app_index as nat) + (", usage_code: ")@
            + spec_hex_alt(self.usage_code as nat) + (" }")@
    }

    pub fn display_string(&self) -> (r: String)
        ensures
            r@ == self.spec_display(),
    {
        let mut s = String::from_str("{ app_index: ");
        let index = u32_dec_string(self.app_index);
        s.append(index.as_str());
        s.append(", usage_code: ");
        let code = u32_hex_string(self.usage_code as u32);
        s.append(code.as_str());
        s.append(" }");
        s
    }

    /// Scans the application usages the device reported, in table order,
    /// for the first one whose usage page matches; tells exactly which
    /// entry matched, or that none does.
    pub fn find(usages: &Vec<i32>, application_collection_usage_page: u16) -> (r: Option<
        ApplicationCollection,
    >)
        requires
            usages@.len() < 0x1_0000_0000,
        ensures
            r matches Some(c) ==> c.app_index < usages@.len() && spec_usage_page(
                usages@[c.app_index as int],
            ) == application_collection_usage_page && c.usage_code == spec_usage_code(
                usages@[c.app_index as int],
            ) && (forall|j: int|
                0 <= j < c.app_index ==> spec_usage_page(usages@[j])
                    != application_collection_usage_page),
            r is None ==> forall|j: int|
                0 <= j < usages@.len() ==> spec_usage_page(usages@[j])
                    != application_collection_usage_page,
    {
        let n = usages.len();
        let mut app_index: usize = 0;
        while app_index < n
            invariant
                app_index <= n,
                n == usages@.len(),
                n < 0x1_0000_0000,
                forall|j: int|
                    0 <= j < app_index ==> spec_usage_page(usages@[j])
                        != application_collection_usage_page,
            decreases n - app_index,
        {
            let usage = usages[app_index];
            if usage_page(usage) == application_collection_usage_page {
                return Some(
                    ApplicationCollection {
                        app_index: app_index as u32,
                        usage_code: usage_code(usage),
                    },
                );
            }
            app_index += 1;
        }
        None
    }
}

impl FieldInfo {
    /// The record string, every usage in hexadecimal and every bound in
    /// decimal.
    pub open spec fn spec_display(self) -> Seq<char> {
        ("{ report_type: ")@ + spec_hex_alt(self.report_type as nat) + (", report_id: ")@
            + spec_hex_alt(self.report_id as nat) + (", field_index: ")@ + spec_dec_digits(
            self.field_index as nat,
        ) + (", maxusage: ")@ + spec_dec_digits(self.maxusage as nat) + (", flags: ")@
            + spec_hex_alt(self.flags as nat) + (", physical: ")@ + spec_dec_digits(
            self.physical as nat,
        ) + (", logical: ")@ + spec_dec_digits(self.logical as nat) + (", application: ")@
            + spec_hex_alt(self.application as nat) + (", logical_minimum: ")@ + spec_i32_dec(
            self.logical_minimum as int,
        ) + (", logical_maximum: ")@ + spec_i32_dec(self.logical_maximum as int) + (
        ", physical_minimum: ")@ + spec_i32_dec(self.physical_minimum as int) + (
        ", physical_maximum: ")@ + spec_i32_dec(self.physical_maximum as int) + (
        ", unit_exponent: ")@ + spec_dec_digits(self.unit_exponent as nat) + (", unit: ")@
            + spec_dec_digits(self.unit as nat) + (" }")@
    }

    pub fn display_string(&self) -> (r: String)
        ensures
            r@ == self.spec_display(),
    {
        let mut s = String::from_str("{ report_type: ");
        let report_type = u32_hex_string(self.report_type);
        s.append(report_type.as_str());
        s.append(", report_id: ");
        let report_id = u32_hex_string(self.report_id);
        s.append(report_id.as_str());
        s.append(", field_index: ");
        let field_index = u32_dec_string(self.field_index);
        s.append(field_index.as_str());
        s.append(", maxusage: ");
        let maxusage = u32_dec_string(self.maxusage);
        s.append(maxusage.as_str());
        s.append(", flags: ");
        let flags = u32_hex_string(self.flags);
        s.append(flags.as_str());
        s.append(", physical: ");
        let physical = u32_dec_string(self.physical);
        s.append(physical.as_str());
        s.append(", logical: ");
        let logical = u32_dec_string(self.logical);
        s.append(logical.as_str());
        s.append(", application: ");
        let application = u32_hex_string(self.application);
        s.append(application.as_str());
        s.append(", logical_minimum: ");
        let logical_minimum = i32_dec_string(self.logical_minimum);
        s.append(logical_minimum.as_str());
        s.append(", logical_maximum: ");
        let logical_maximum = i32_dec_string(self.logical_maximum);
        s.append(logical_maximum.as_str());
        s.append(", physical_minimum: ");
        let physical_minimum = i32_dec_string(self.physical_minimum);
        s.append(physical_minimum.as_str());
        s.append(", physical_maximum: ");
        let physical_maximum = i32_dec_string(self.physical_maximum);
        s.append(physical_maximum.as_str());
        s.append(", unit_exponent: ");
        let unit_exponent = u32_dec_string(self.unit_exponent);
        s.append(unit_exponent.as_str());
        s.append(", unit: ");
        let unit = u32_dec_string(self.unit);
        s.append(unit.as_str());
        s.append(" }");
        s
    }
}

/// A list of field records.
pub struct InfoVec(pub Vec<FieldInfo>);

impl Default for InfoVec {
    fn default() -> (r: Self)
        ensures
            r.0@.len() == 0,
    {
        InfoVec(Vec::new())
    }
}

/// The record strings of a list of fields, joined the way the list
/// renders them.
pub open spec fn spec_field_list(v: Seq<FieldInfo>) -> Seq<char>
    decreases v.len(),
{
    if v.len() == 0 {
        Seq::empty()
    } else if v.len() == 1 {
        v[0].spec_display()
    } else {
        spec_field_list(v.drop_last()) + (" ,")@ + v.last().spec_display()
    }
}

impl InfoVec {
    /// The record string: `[]` when empty, else the fields' records
    /// between brackets.
    pub open spec fn spec_display(&self) -> Seq<char> {
        if self.0@.len() == 0 {
            ("[]")@
        } else {
            ("[ ")@ + spec_field_list(self.0@) + (" ]")@
        }
    }

    pub fn display_string(&self) -> (r: String)
        ensures
            r@ == self.spec_display(),
    {
        if self.0.len() == 0 {
            return String::from_str("[]");
        }
        let mut s = String::from_str("[ ");
        let n = self.0.len();
        let mut i: usize = 0;
        while i < n
            invariant
                0 < n == self.0@.len(),
                i <= n,
                s@ == ("[ ")@ + spec_field_list(self.0@.take(i as int)),
            decreases n - i,
        {
            if i > 0 {
                s.append(" ,");
            }
            let item = self.0[i].display_string();
            s.append(item.as_str());
            proof {
                assert(self.0@.take(i + 1).drop_last() =~= self.0@.take(i as int));
                assert(self.0@.take(i + 1).last() == self.0@[i as int]);
            }
            i += 1;
        }
        proof {
            assert(self.0@.take(n as int) =~= self.0@);
        }
        s.append(" ]");
        s
    }
}

impl UsageRef {
    /// The record string, every field in upper-case hexadecimal.
    pub open spec fn spec_display(self) -> Seq<char> {
        ("{ field_index: ")@ + spec_hex_alt_upper(self.field_index as nat) + (", report_id: ")@
            + spec_hex_alt_upper(self.report_id as nat) + (", report_type: ")@
            + spec_hex_alt_upper(self.report_type as nat) + (", usage_code: ")@
            + spec_hex_alt_upper(self.usage_code as nat) + (", usage_index: ")@
            + spec_hex_alt_upper(self.usage_index as nat) + (", value: ")@ + spec_hex_alt_upper(
            spec_i32_bits(self.value as int) as nat,
        ) + (" }")@
    }

    pub fn display_string(&self) -> (r: String)
        ensures
            r@ == self.spec_display(),
    {
        let mut s = String::from_str("{ field_index: ");
        let field_index = u32_hex_upper_string(self.field_index);
        s.append(field_index.as_str());
        s.append(", report_id: ");
        let report_id = u32_hex_upper_string(self.report_id);
        s.append(report_id.as_str());
        s.append(", report_type: ");
        let report_type = u32_hex_upper_string(self.report_type);
        s.append(report_type.as_str());
        s.append(", usage_code: ");
        let usage_code = u32_hex_upper_string(self.usage_code);
        s.append(usage_code.as_str());
        s.append(", usage_index: ");
        let usage_index = u32_hex_upper_string(self.usage_index);
        s.append(usage_index.as_str());
        s.append(", value: ");
        let value = i32_hex_upper_string(self.value);
        s.append(value.as_str());
        s.append(" }");
        s
    }
}

/// The index of the last non-zero value, if any value is non-zero.
pub open spec fn spec_last_nonzero(v: Seq<i32>) -> Option<int>
    decreases v.len(),
{
    if v.len() == 0 {
        None
    } else if v.last() != 0 {
        Some(v.len() - 1)
    } else {
        spec_last_nonzero(v.drop_last())
    }
}

/// The values' hexadecimal records, comma-joined.
pub open spec fn spec_hex_list(v: Seq<i32>) -> Seq<char>
    decreases v.len(),
{
    if v.len() == 0 {
        Seq::empty()
    } else if v.len() == 1 {
        spec_hex_alt(spec_i32_bits(v[0] as int) as nat)
    } else {
        spec_hex_list(v.drop_last()) + (", ")@ + spec_hex_alt(spec_i32_bits(v.last() as int) as nat)
    }
}

impl UsageRefMulti {
    /// The record string: the count, the usage reference's record, and the
    /// values up to the last non-zero one in hexadecimal.
    pub open spec fn spec_display(&self) -> Seq<char> {
        ("{ num_values: ")@ + spec_dec_digits(self.num_values as nat) + (", uref: ")@
            + self.uref.spec_display() + (", values:")@ + (match spec_last_nonzero(self.values@) {
            None => Seq::<char>::empty(),
            Some(last) => (" ")@ + spec_hex_list(self.values@.take(last + 1)),
        }) + (" }")@
    }

    pub fn display_string(&self) -> (r: String)
        ensures
            r@ == self.spec_display(),
    {
        let mut s = String::from_str("{ num_values: ");
        let num_values = u32_dec_string(self.num_values);
        s.append(num_values.as_str());
        s.append(", uref: ");
        let uref = self.uref.display_string();
        s.append(uref.as_str());
        s.append(", values:");

        let mut remaining: usize = 1024;
        let mut last: Option<usize> = None;
        proof {
            assert(self.values@.take(1024int) =~= self.values@);
        }
        while remaining > 0
            invariant_except_break
                last is None,
                spec_last_nonzero(self.values@) == spec_last_nonzero(
                    self.values@.take(remaining as int),
                ),
            invariant
                remaining <= 1024,
                self.values@.len() == 1024,
            ensures
                last matches Some(l) ==> spec_last_nonzero(self.values@) == Some(l as int) && l
                    < 1024,
                last is None ==> spec_last_nonzero(self.values@) is None,
            decreases remaining,
        {
            proof {
                assert(self.values@.take(remaining as int).drop_last() =~= self.values@.take(
                    remaining - 1,
                ));
                assert(self.values@.take(remaining as int).last() == self.values@[remaining - 1]);
            }
            if self.values[remaining - 1] != 0 {
                last = Some(remaining - 1);
                break ;
            }
            remaining -= 1;
        }

        match last {
            None => {},
            Some(last_index) => {
                s.append(" ");
                let mut i: usize = 0;
                let ghost list = self.values@.take(last_index + 1);
                while i <= last_index
                    invariant
                        last_index < 1024,
                        self.values@.len() == 1024,
                        i <= last_index + 1,
                        list == self.values@.take(last_index + 1),
                        s@ == ("{ num_values: ")@ + spec_dec_digits(self.num_values as nat) + (
                        ", uref: ")@ + self.uref.spec_display() + (", values:")@ + (" ")@
                            + spec_hex_list(list.take(i as int)),
                    decreases last_index + 1 - i,
                {
                    if i > 0 {
                        s.append(", ");
                    }
                    let value = u32_hex_string(i32_bits(self.values[i]));
                    s.append(value.as_str());
                    proof {
                        assert(list.take(i + 1).drop_last() =~= list.take(i as int));
                        assert(list.take(i + 1).last() == self.values@[i as int]);
                    }
                    i += 1;
                }
                proof {
                    assert(list.take(last_index + 1) =~= list);
                }
            },
        }
        s.append(" }");
        s
    }
}

/// The per-byte usage values an outbound report is marshalled into: one
/// output usage per parameter byte the LONG wire format carries.
pub fn usage_refs_for_report(report: &HidppReport) -> (r: Vec<UsageRef>)
    ensures
        r@.len() == LONG_LENGTH,
        forall|i: int|
            0 <= i < r@.len() ==> r@[i] == (UsageRef {
                report_type: ReportType::Output.spec_value(),
                report_id: report@.report_id as u32,
                field_index: i as u32,
                usage_index: 0,
                usage_code: 0x02,
                value: byte_at(report@.fap.params, i) as i32,
            }),
{
    let mut out: Vec<UsageRef> = Vec::new();
    let n = LONG_LENGTH as usize;
    let mut i: usize = 0;
    while i < n
        invariant
            i <= n,
            n == LONG_LENGTH,
            out@.len() == i,
            forall|j: int|
                0 <= j < i ==> out@[j] == (UsageRef {
                    report_type: ReportType::Output.spec_value(),
                    report_id: report@.report_id as u32,
                    field_index: j as u32,
                    usage_index: 0,
                    usage_code: 0x02,
                    value: byte_at(report@.fap.params, j) as i32,
                }),
        decreases n - i,
    {
        let usage = UsageRef {
            report_type: ReportType::Output.value(),
            report_id: report.report_id as u32,
            field_index: i as u32,
            usage_index: 0,
            usage_code: 0x02,
            value: report.fap.param_at(i) as i32,
        };
        out.push(usage);
        i += 1;
    }
    out
}

} // verus!
