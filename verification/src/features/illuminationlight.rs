//! The illumination light feature: illumination state, brightness and
//! color temperature, their capability records, and their level tables.

use vstd::prelude::*;

use crate::context::Context;
use crate::features::access_common_impl;
use crate::features::common::CommonFeatureImpl;
use crate::features::root::RootImpl;
use crate::features::spec_feature_failure;
use crate::features::FeatureError;
use crate::report::byte_at;
use crate::report::spec_default_fap;
use crate::report::FapBuilder;
use crate::report::HidppReport;
use crate::report::ReportModel;
use crate::report::SW_ID;
use crate::sender::ReportAsyncSender;

verus! {

/// Feature id of the illumination light feature.
const FEATURE_ID: u16 = 0x1990;

/// The big-endian 16-bit value two bytes carry.
pub open spec fn spec_be16(hi: u8, lo: u8) -> u16 {
    ((hi as int) * 256 + (lo as int)) as u16
}

fn be16(hi: u8, lo: u8) -> (r: u16)
    ensures
        r == spec_be16(hi, lo),
{
    (hi as u16) * 256 + (lo as u16)
}

/// The high byte of a big-endian 16-bit value.
pub open spec fn spec_be16_hi(v: u16) -> u8 {
    (v / 256) as u8
}

/// The low byte of a big-endian 16-bit value.
pub open spec fn spec_be16_lo(v: u16) -> u8 {
    (v % 256) as u8
}

fn be16_hi(v: u16) -> (r: u8)
    ensures
        r == spec_be16_hi(v),
{
    (v / 256) as u8
}

fn be16_lo(v: u16) -> (r: u8)
    ensures
        r == spec_be16_lo(v),
{
    (v % 256) as u8
}

#[derive(Clone, Copy)]
enum FuncIndex {
    GetIllumination,
    SetIllumination,
    GetBrightnessInfo,
    GetBrightness,
    SetBrightness,
    GetBrightnessLevels,
    SetBrightnessLevels,
    GetColorTemperatureInfo,
    GetColorTemperature,
    SetColorTemperature,
    GetColorTemperatureLevels,
    SetColorTemperatureLevels,
}

impl FuncIndex {
    spec fn spec_code(self) -> u8 {
        match self {
            FuncIndex::GetIllumination => 0,
            FuncIndex::SetIllumination => 1,
            FuncIndex::GetBrightnessInfo => 2,
            FuncIndex::GetBrightness => 3,
            FuncIndex::SetBrightness => 4,
            FuncIndex::GetBrightnessLevels => 5,
            FuncIndex::SetBrightnessLevels => 6,
            FuncIndex::GetColorTemperatureInfo => 7,
            FuncIndex::GetColorTemperature => 8,
            FuncIndex::SetColorTemperature => 9,
            FuncIndex::GetColorTemperatureLevels => 10,
            FuncIndex::SetColorTemperatureLevels => 11,
        }
    }

    fn code(self) -> (r: u8)
        ensures
            r == self.spec_code(),
            r < 16,
    {
        match self {
            FuncIndex::GetIllumination => 0,
            FuncIndex::SetIllumination => 1,
            FuncIndex::GetBrightnessInfo => 2,
            FuncIndex::GetBrightness => 3,
            FuncIndex::SetBrightness => 4,
            FuncIndex::GetBrightnessLevels => 5,
            FuncIndex::SetBrightnessLevels => 6,
            FuncIndex::GetColorTemperatureInfo => 7,
            FuncIndex::GetColorTemperature => 8,
            FuncIndex::SetColorTemperature => 9,
            FuncIndex::GetColorTemperatureLevels => 10,
            FuncIndex::SetColorTemperatureLevels => 11,
        }
    }
}

/// Whether the illumination is on: only the lowest bit counts.
#[derive(Clone, Copy, Debug, PartialEq, Eq, Structural)]
pub struct IlluminationState {
    pub state: u8,
}

impl IlluminationState {
    pub open spec fn spec_from_report(r: ReportModel) -> IlluminationState {
        IlluminationState { state: byte_at(r.fap.params, 0) & 1 }
    }

    pub fn from_report(report: &HidppReport) -> (r: IlluminationState)
        ensures
            r == IlluminationState::spec_from_report(report@),
    {
        IlluminationState { state: report.fap.param_at(0) & 1 }
    }

    /// The single parameter byte the set command carries.
    pub fn to_params(&self) -> (r: Vec<u8>)
        ensures
            r@ =~= seq![(self.state & 1)],
    {
        let mut params: Vec<u8> = Vec::new();
        params.push(self.state & 1);
        params
    }
}

/// What a control (brightness or color temperature) can do.
#[derive(Clone, Copy, Debug, PartialEq, Eq, Structural)]
pub struct ControlInfoCapabilities {
    pub has_non_linear_levels: bool,
    pub has_linear_levels: bool,
    pub has_events: bool,
}

impl ControlInfoCapabilities {
    pub open spec fn spec_from_byte(b: u8) -> ControlInfoCapabilities {
        ControlInfoCapabilities {
            has_events: b & 0b001 == 0b001,
            has_linear_levels: b & 0b010 == 0b010,
            has_non_linear_levels: b & 0b100 == 0b100,
        }
    }

    pub fn from_byte(b: u8) -> (r: ControlInfoCapabilities)
        ensures
            r == ControlInfoCapabilities::spec_from_byte(b),
    {
        ControlInfoCapabilities {
            has_events: (b & 0b001) == 0b001,
            has_linear_levels: (b & 0b010) == 0b010,
            has_non_linear_levels: (b & 0b100) == 0b100,
        }
    }
}

/// A control's capability record: flags, value range, resolution, and how
/// many levels its level table can hold.
#[derive(Clone, Copy, Debug, PartialEq, Eq, Structural)]
pub struct ControlInfo {
    pub capabilities: ControlInfoCapabilities,
    pub min: u16,
    pub max: u16,
    pub res: u16,
    pub max_levels: u8,
}

impl ControlInfo {
    pub open spec fn spec_from_report(r: ReportModel) -> ControlInfo {
        ControlInfo {
            capabilities: ControlInfoCapabilities::spec_from_byte(byte_at(r.fap.params, 0)),
            min: spec_be16(byte_at(r.fap.params, 1), byte_at(r.fap.params, 2)),
            max: spec_be16(byte_at(r.fap.params, 3), byte_at(r.fap.params, 4)),
            res: spec_be16(byte_at(r.fap.params, 5), byte_at(r.fap.params, 6)),
            max_levels: byte_at(r.fap.params, 7) & 0x0F,
        }
    }

    pub fn from_report(report: &HidppReport) -> (r: ControlInfo)
        ensures
            r == ControlInfo::spec_from_report(report@),
    {
        ControlInfo {
            capabilities: ControlInfoCapabilities::from_byte(report.fap.param_at(0)),
            min: be16(report.fap.param_at(1), report.fap.param_at(2)),
            max: be16(report.fap.param_at(3), report.fap.param_at(4)),
            res: be16(report.fap.param_at(5), report.fap.param_at(6)),
            max_levels: report.fap.param_at(7) & 0x0F,
        }
    }
}

/// The leading flags byte of a level table: how many entries are valid and
/// whether the table is linear.
#[derive(Clone, Copy, Debug, PartialEq, Eq, Structural)]
pub struct ControlLevelsFlags {
    pub valid_count: u8,
    pub linear: bool,
}

impl ControlLevelsFlags {
    pub open spec fn spec_from_byte(b: u8) -> ControlLevelsFlags {
        ControlLevelsFlags { linear: b & 0b1 == 0b1, valid_count: (b & 0xE0) >> 5u8 }
    }

    pub fn from_byte(b: u8) -> (r: ControlLevelsFlags)
        ensures
            r == ControlLevelsFlags::spec_from_byte(b),
    {
        ControlLevelsFlags { linear: (b & 0b1) == 0b1, valid_count: (b & 0xE0) >> 5 }
    }

    /// The flags byte back: the valid count in the top three bits, the
    /// linear flag in the lowest.
    pub open spec fn spec_to_byte(self) -> u8 {
        ((self.valid_count & 0x07) << 5u8) | (if self.linear {
            1u8
        } else {
            0u8
        })
    }

    pub fn to_byte(&self) -> (r: u8)
        ensures
            r == self.spec_to_byte(),
    {
        ((self.valid_count & 0x07) << 5) | (if self.linear {
            1
        } else {
            0
        })
    }
}

/// Which slice of a level table a request or answer addresses.
#[derive(Clone, Copy, Debug, PartialEq, Eq, Structural)]
pub struct ControlTargetLevels {
    pub start_index: u8,
    pub level_count: u8,
}

impl ControlTargetLevels {
    pub open spec fn spec_from_byte(b: u8) -> ControlTargetLevels {
        ControlTargetLevels { start_index: (b & 0xF0) >> 4u8, level_count: b & 0x0F }
    }

    pub fn from_byte(b: u8) -> (r: ControlTargetLevels)
        ensures
            r == ControlTargetLevels::spec_from_byte(b),
    {
        ControlTargetLevels { start_index: (b & 0xF0) >> 4, level_count: b & 0x0F }
    }

    /// The target byte back: start index in the high nibble, level count in
    /// the low one.
    pub open spec fn spec_to_byte(self) -> u8 {
        ((self.start_index & 0x0F) << 4u8) | (self.level_count & 0x0F)
    }

    pub fn to_byte(&self) -> (r: u8)
        ensures
            r == self.spec_to_byte(),
    {
        ((self.start_index & 0x0F) << 4) | (self.level_count & 0x0F)
    }
}

/// A linear level table: a range and a step.
#[derive(Clone, Copy, Debug, PartialEq, Eq, Structural)]
pub struct ControlLevelsLinear {
    pub flags: ControlLevelsFlags,
    pub target_levels: ControlTargetLevels,
    pub level_min_value: u16,
    pub level_max_value: u16,
    pub level_step_value: u16,
}

impl ControlLevelsLinear {
    pub open spec fn spec_from_params(p: Seq<u8>) -> ControlLevelsLinear {
        ControlLevelsLinear {
            flags: ControlLevelsFlags::spec_from_byte(byte_at(p, 0)),
            target_levels: ControlTargetLevels::spec_from_byte(byte_at(p, 1)),
            level_min_value: spec_be16(byte_at(p, 2), byte_at(p, 3)),
            level_max_value: spec_be16(byte_at(p, 4), byte_at(p, 5)),
            level_step_value: spec_be16(byte_at(p, 6), byte_at(p, 7)),
        }
    }

    pub fn from_report(report: &HidppReport) -> (r: ControlLevelsLinear)
        ensures
            r == ControlLevelsLinear::spec_from_params(report@.fap.params),
    {
        ControlLevelsLinear {
            flags: ControlLevelsFlags::from_byte(report.fap.param_at(0)),
            target_levels: ControlTargetLevels::from_byte(report.fap.param_at(1)),
            level_min_value: be16(report.fap.param_at(2), report.fap.param_at(3)),
            level_max_value: be16(report.fap.param_at(4), report.fap.param_at(5)),
            level_step_value: be16(report.fap.param_at(6), report.fap.param_at(7)),
        }
    }

    /// The sixteen parameter bytes of the set command.
    pub open spec fn spec_to_bytes(self) -> Seq<u8> {
        seq![
            self.flags.spec_to_byte(),
            self.target_levels.spec_to_byte(),
            spec_be16_hi(self.level_min_value),
            spec_be16_lo(self.level_min_value),
            spec_be16_hi(self.level_max_value),
            spec_be16_lo(self.level_max_value),
            spec_be16_hi(self.level_step_value),
            spec_be16_lo(self.level_step_value),
            0u8,
            0u8,
            0u8,
            0u8,
            0u8,
            0u8,
            0u8,
            0u8,
        ]
    }

    pub fn to_bytes(&self) -> (r: Vec<u8>)
        ensures
            r@ =~= self.spec_to_bytes(),
    {
        let mut out: Vec<u8> = Vec::new();
        out.push(self.flags.to_byte());
        out.push(self.target_levels.to_byte());
        out.push(be16_hi(self.level_min_value));
        out.push(be16_lo(self.level_min_value));
        out.push(be16_hi(self.level_max_value));
        out.push(be16_lo(self.level_max_value));
        out.push(be16_hi(self.level_step_value));
        out.push(be16_lo(self.level_step_value));
        out.push(0);
        out.push(0);
        out.push(0);
        out.push(0);
        out.push(0);
        out.push(0);
        out.push(0);
        out.push(0);
        out
    }
}

/// A non-linear level table: up to seven explicit level values.
#[derive(Clone, Copy, Debug, PartialEq, Eq, Structural)]
pub struct ControlLevelsNonLinear {
    pub flags: ControlLevelsFlags,
    pub target_levels: ControlTargetLevels,
    pub level_0_value: u16,
    pub level_1_value: u16,
    pub level_2_value: u16,
    pub level_3_value: u16,
    pub level_4_value: u16,
    pub level_5_value: u16,
    pub level_6_value: u16,
}

impl ControlLevelsNonLinear {
    pub open spec fn spec_from_params(p: Seq<u8>) -> ControlLevelsNonLinear {
        ControlLevelsNonLinear {
            flags: ControlLevelsFlags::spec_from_byte(byte_at(p, 0)),
            target_levels: ControlTargetLevels::spec_from_byte(byte_at(p, 1)),
            level_0_value: spec_be16(byte_at(p, 2), byte_at(p, 3)),
            level_1_value: spec_be16(byte_at(p, 4), byte_at(p, 5)),
            level_2_value: spec_be16(byte_at(p, 6), byte_at(p, 7)),
            level_3_value: spec_be16(byte_at(p, 8), byte_at(p, 9)),
            level_4_value: spec_be16(byte_at(p, 10), byte_at(p, 11)),
            level_5_value: spec_be16(byte_at(p, 12), byte_at(p, 13)),
            level_6_value: spec_be16(byte_at(p, 14), byte_at(p, 15)),
        }
    }

    pub fn from_report(report: &HidppReport) -> (r: ControlLevelsNonLinear)
        ensures
            r == ControlLevelsNonLinear::spec_from_params(report@.fap.params),
    {
        ControlLevelsNonLinear {
            flags: ControlLevelsFlags::from_byte(report.fap.param_at(0)),
            target_levels: ControlTargetLevels::from_byte(report.fap.param_at(1)),
            level_0_value: be16(report.fap.param_at(2), report.fap.param_at(3)),
            level_1_value: be16(report.fap.param_at(4), report.fap.param_at(5)),
            level_2_value: be16(report.fap.param_at(6), report.fap.param_at(7)),
            level_3_value: be16(report.fap.param_at(8), report.fap.param_at(9)),
            level_4_value: be16(report.fap.param_at(10), report.fap.param_at(11)),
            level_5_value: be16(report.fap.param_at(12), report.fap.param_at(13)),
            level_6_value: be16(report.fap.param_at(14), report.fap.param_at(15)),
        }
    }

    /// The sixteen parameter bytes of the set command.
    pub open spec fn spec_to_bytes(self) -> Seq<u8> {
        seq![
            self.flags.spec_to_byte(),
            self.target_levels.spec_to_byte(),
            spec_be16_hi(self.level_0_value),
            spec_be16_lo(self.level_0_value),
            spec_be16_hi(self.level_1_value),
            spec_be16_lo(self.level_1_value),
            spec_be16_hi(self.level_2_value),
            spec_be16_lo(self.level_2_value),
            spec_be16_hi(self.level_3_value),
            spec_be16_lo(self.level_3_value),
            spec_be16_hi(self.level_4_value),
            spec_be16_lo(self.level_4_value),
            spec_be16_hi(self.level_5_value),
            spec_be16_lo(self.level_5_value),
            spec_be16_hi(self.level_6_value),
            spec_be16_lo(self.level_6_value),
        ]
    }

    pub fn to_bytes(&self) -> (r: Vec<u8>)
        ensures
            r@ =~= self.spec_to_bytes(),
    {
        let mut out: Vec<u8> = Vec::new();
        out.push(self.flags.to_byte());
        out.push(self.target_levels.to_byte());
        out.push(be16_hi(self.level_0_value));
        out.push(be16_lo(self.level_0_value));
        out.push(be16_hi(self.level_1_value));
        out.push(be16_lo(self.level_1_value));
        out.push(be16_hi(self.level_2_value));
        out.push(be16_lo(self.level_2_value));
        out.push(be16_hi(self.level_3_value));
        out.push(be16_lo(self.level_3_value));
        out.push(be16_hi(self.level_4_value));
        out.push(be16_lo(self.level_4_value));
        out.push(be16_hi(self.level_5_value));
        out.push(be16_lo(self.level_5_value));
        out.push(be16_hi(self.level_6_value));
        out.push(be16_lo(self.level_6_value));
        out
    }
}

/// A level table in either of its two shapes; the flags byte's lowest bit
/// says which one an answer carries.
#[derive(Clone, Copy, Debug, PartialEq, Eq, Structural)]
pub enum ControlLevels {
    Linear(ControlLevelsLinear),
    NonLinear(ControlLevelsNonLinear),
}

impl ControlLevels {
    pub open spec fn spec_from_report(r: ReportModel) -> ControlLevels {
        if ControlLevelsFlags::spec_from_byte(byte_at(r.fap.params, 0)).linear {
            ControlLevels::Linear(ControlLevelsLinear::spec_from_params(r.fap.params))
        } else {
            ControlLevels::NonLinear(ControlLevelsNonLinear::spec_from_params(r.fap.params))
        }
    }

    pub fn from_report(report: &HidppReport) -> (r: ControlLevels)
        ensures
            r == ControlLevels::spec_from_report(report@),
    {
        let flags = ControlLevelsFlags::from_byte(report.fap.param_at(0));
        if flags.linear {
            ControlLevels::Linear(ControlLevelsLinear::from_report(report))
        } else {
            ControlLevels::NonLinear(ControlLevelsNonLinear::from_report(report))
        }
    }

    pub open spec fn spec_to_bytes(self) -> Seq<u8> {
        match self {
            ControlLevels::Linear(x) => x.spec_to_bytes(),
            ControlLevels::NonLinear(x) => x.spec_to_bytes(),
        }
    }

    pub fn to_bytes(&self) -> (r: Vec<u8>)
        ensures
            r@ =~= self.spec_to_bytes(),
            r@.len() == 16,
    {
        match self {
            ControlLevels::Linear(x) => x.to_bytes(),
            ControlLevels::NonLinear(x) => x.to_bytes(),
        }
    }
}

/// Asks for a level table starting at this index.
#[derive(Clone, Copy, Debug, PartialEq, Eq, Structural)]
pub struct LevelsRequest {
    pub start_index: u8,
}

impl LevelsRequest {
    /// The single parameter byte of the request: the start index in the
    /// high nibble.
    pub fn to_params(&self) -> (r: Vec<u8>)
        ensures
            r@ =~= seq![(((self.start_index & 0x0F) << 4u8)) as u8],
    {
        let mut params: Vec<u8> = Vec::new();
        params.push((self.start_index & 0x0F) << 4);
        params
    }
}

/// A control's current hardware value.
#[derive(Clone, Copy, Debug, PartialEq, Eq, Structural)]
pub struct ControlValue {
    pub value: u16,
}

impl ControlValue {
    pub open spec fn spec_from_report(r: ReportModel) -> ControlValue {
        ControlValue { value: spec_be16(byte_at(r.fap.params, 0), byte_at(r.fap.params, 1)) }
    }

    pub fn from_report(report: &HidppReport) -> (r: ControlValue)
        ensures
            r == ControlValue::spec_from_report(report@),
    {
        ControlValue { value: be16(report.fap.param_at(0), report.fap.param_at(1)) }
    }

    /// The two big-endian parameter bytes of the set command.
    pub fn to_params(&self) -> (r: Vec<u8>)
        ensures
            r@ =~= seq![spec_be16_hi(self.value), spec_be16_lo(self.value)],
    {
        let mut params: Vec<u8> = Vec::new();
        params.push(be16_hi(self.value));
        params.push(be16_lo(self.value));
        params
    }
}

/// The illumination light feature, bound to its feature index.
pub struct IlluminationLightImpl {
    pub common_impl: CommonFeatureImpl,
}

impl IlluminationLightImpl {
    fn new_fap_builder(&self, func_index: FuncIndex) -> (r: FapBuilder)
        ensures
            r.wf(),
            r.copied_len == 0,
            r.built@.feature_index == self.common_impl.feature_index,
            r.built@.funcindex_clientid == ((func_index.spec_code() << 4u8) | SW_ID) as u8,
            r.built@.params == spec_default_fap().params,
    {
        FapBuilder::new().feature_index(self.common_impl.feature_index).funcindex(
            func_index.code(),
        )
    }

    /// Retrieves the current illumination state.
    pub fn get_illumination<RAS: ReportAsyncSender>(
        &mut self,
        context: &mut Context<RAS>,
    ) -> (r: Result<IlluminationState, FeatureError>)
        requires
            old(context).wf(),
        ensures
            final(context).wf(),
            r matches Err(e) ==> spec_feature_failure(e),
    {
        let fap = self.new_fap_builder(FuncIndex::GetIllumination);
        let report = self.common_impl.send_fap_command(context, fap)?;
        Ok(IlluminationState::from_report(&report))
    }

    /// Turns the illumination on or off.
    pub fn set_illumination<RAS: ReportAsyncSender>(
        &mut self,
        context: &mut Context<RAS>,
        state: &IlluminationState,
    ) -> (r: Result<(), FeatureError>)
        requires
            old(context).wf(),
        ensures
            final(context).wf(),
            r matches Err(e) ==> spec_feature_failure(e),
    {
        let params = state.to_params();
        let fap = self.new_fap_builder(FuncIndex::SetIllumination).params(params.as_slice());
        self.common_impl.send_fap_command(context, fap)?;
        Ok(())
    }

    /// Returns information about the device's brightness capabilities.
    pub fn get_brightness_info<RAS: ReportAsyncSender>(
        &mut self,
        context: &mut Context<RAS>,
    ) -> (r: Result<ControlInfo, FeatureError>)
        requires
            old(context).wf(),
        ensures
            final(context).wf(),
            r matches Err(e) ==> spec_feature_failure(e),
    {
        let fap = self.new_fap_builder(FuncIndex::GetBrightnessInfo);
        let report = self.common_impl.send_fap_command(context, fap)?;
        Ok(ControlInfo::from_report(&report))
    }

    /// Returns the current hardware brightness value.
    pub fn get_brightness<RAS: ReportAsyncSender>(
        &mut self,
        context: &mut Context<RAS>,
    ) -> (r: Result<ControlValue, FeatureError>)
        requires
            old(context).wf(),
        ensures
            final(context).wf(),
            r matches Err(e) ==> spec_feature_failure(e),
    {
        let fap = self.new_fap_builder(FuncIndex::GetBrightness);
        let report = self.common_impl.send_fap_command(context, fap)?;
        Ok(ControlValue::from_report(&report))
    }

    /// Sets the hardware brightness value.
    pub fn set_brightness<RAS: ReportAsyncSender>(
        &mut self,
        context: &mut Context<RAS>,
        value: &ControlValue,
    ) -> (r: Result<(), FeatureError>)
        requires
            old(context).wf(),
        ensures
            final(context).wf(),
            r matches Err(e) ==> spec_feature_failure(e),
    {
        let params = value.to_params();
        let fap = self.new_fap_builder(FuncIndex::SetBrightness).params(params.as_slice());
        self.common_impl.send_fap_command(context, fap)?;
        Ok(())
    }

    /// Returns the device's current brightness level configuration.
    pub fn get_brightness_levels<RAS: ReportAsyncSender>(
        &mut self,
        context: &mut Context<RAS>,
        req: &LevelsRequest,
    ) -> (r: Result<ControlLevels, FeatureError>)
        requires
            old(context).wf(),
        ensures
            final(context).wf(),
            r matches Err(e) ==> spec_feature_failure(e),
    {
        let params = req.to_params();
        let fap = self.new_fap_builder(FuncIndex::GetBrightnessLevels).params(params.as_slice());
        let report = self.common_impl.send_fap_command(context, fap)?;
        Ok(ControlLevels::from_report(&report))
    }

    /// Sets the device's brightness level configuration.
    pub fn set_brightness_levels<RAS: ReportAsyncSender>(
        &mut self,
        context: &mut Context<RAS>,
        value: &ControlLevels,
    ) -> (r: Result<(), FeatureError>)
        requires
            old(context).wf(),
        ensures
            final(context).wf(),
            r matches Err(e) ==> spec_feature_failure(e),
    {
        let params = value.to_bytes();
        let fap = self.new_fap_builder(FuncIndex::SetBrightnessLevels).params(params.as_slice());
        self.common_impl.send_fap_command(context, fap)?;
        Ok(())
    }

    /// Returns information about the device's color temperature
    /// capabilities.
    pub fn get_color_temperature_info<RAS: ReportAsyncSender>(
        &mut self,
        context: &mut Context<RAS>,
    ) -> (r: Result<ControlInfo, FeatureError>)
        requires
            old(context).wf(),
        ensures
            final(context).wf(),
            r matches Err(e) ==> spec_feature_failure(e),
    {
        let fap = self.new_fap_builder(FuncIndex::GetColorTemperatureInfo);
        let report = self.common_impl.send_fap_command(context, fap)?;
        Ok(ControlInfo::from_report(&report))
    }

    /// Returns the current hardware color temperature value.
    pub fn get_color_temperature<RAS: ReportAsyncSender>(
        &mut self,
        context: &mut Context<RAS>,
    ) -> (r: Result<ControlValue, FeatureError>)
        requires
            old(context).wf(),
        ensures
            final(context).wf(),
            r matches Err(e) ==> spec_feature_failure(e),
    {
        let fap = self.new_fap_builder(FuncIndex::GetColorTemperature);
        let report = self.common_impl.send_fap_command(context, fap)?;
        Ok(ControlValue::from_report(&report))
    }

    /// Sets the hardware color temperature value.
    pub fn set_color_temperature<RAS: ReportAsyncSender>(
        &mut self,
        context: &mut Context<RAS>,
        value: &ControlValue,
    ) -> (r: Result<(), FeatureError>)
        requires
            old(context).wf(),
        ensures
            final(context).wf(),
            r matches Err(e) ==> spec_feature_failure(e),
    {
        let params = value.to_params();
        let fap = self.new_fap_builder(FuncIndex::SetColorTemperature).params(params.as_slice());
        self.common_impl.send_fap_command(context, fap)?;
        Ok(())
    }

    /// Returns the device's current color temperature level configuration.
    pub fn get_color_temperature_levels<RAS: ReportAsyncSender>(
        &mut self,
        context: &mut Context<RAS>,
        req: &LevelsRequest,
    ) -> (r: Result<ControlLevels, FeatureError>)
        requires
            old(context).wf(),
        ensures
            final(context).wf(),
            r matches Err(e) ==> spec_feature_failure(e),
    {
        let params = req.to_params();
        let fap = self.new_fap_builder(FuncIndex::GetColorTemperatureLevels).params(
            params.as_slice(),
        );
        let report = self.common_impl.send_fap_command(context, fap)?;
        Ok(ControlLevels::from_report(&report))
    }

    /// Sets the device's color temperature level configuration.
    pub fn set_color_temperature_levels<RAS: ReportAsyncSender>(
        &mut self,
        context: &mut Context<RAS>,
        value: &ControlLevels,
    ) -> (r: Result<(), FeatureError>)
        requires
            old(context).wf(),
        ensures
            final(context).wf(),
            r matches Err(e) ==> spec_feature_failure(e),
    {
        let params = value.to_bytes();
        let fap = self.new_fap_builder(FuncIndex::SetColorTemperatureLevels).params(
            params.as_slice(),
        );
        self.common_impl.send_fap_command(context, fap)?;
        Ok(())
    }
}

/// Binds the feature if the device has it and does not hide it.
pub fn init<RAS: ReportAsyncSender>(
    context: &mut Context<RAS>,
    root: &mut RootImpl,
) -> (r: Result<Option<IlluminationLightImpl>, FeatureError>)
    requires
        old(context).wf(),
    ensures
        final(context).wf(),
        r matches Err(e) ==> spec_feature_failure(e),
{
    let accessor = access_common_impl(root, context, FEATURE_ID)?;
    match accessor {
        None => Ok(None),
        Some(common_impl) => Ok(Some(IlluminationLightImpl { common_impl })),
    }
}

} // verus!
