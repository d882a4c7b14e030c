//! The device type and name feature.

use vstd::prelude::*;

use crate::context::Context;
use crate::features::access_common_impl;
use crate::features::common::CommonFeatureImpl;
use crate::features::root::RootImpl;
use crate::features::spec_feature_failure;
use crate::features::FeatureError;
use crate::report::byte_at;
use crate::report::spec_default_fap;
use crate::report::FapBuilder;
use crate::report::HidppReport;
use crate::report::ReportModel;
use crate::report::SW_ID;
use crate::sender::ReportAsyncSender;

verus! {

/// Feature id of the device type and name feature.
const FEATURE_ID: u16 = 0x0005;

/// How many characters the device's name has.
#[derive(Clone, Copy, Debug, PartialEq, Eq, Structural)]
pub struct DeviceNameCount {
    pub device_name_count: u8,
}

impl DeviceNameCount {
    pub open spec fn spec_from_report(r: ReportModel) -> DeviceNameCount {
        DeviceNameCount { device_name_count: byte_at(r.fap.params, 0) }
    }

    pub fn from_report(report: &HidppReport) -> (r: DeviceNameCount)
        ensures
            r == DeviceNameCount::spec_from_report(report@),
    {
        DeviceNameCount { device_name_count: report.fap.param_at(0) }
    }
}

/// One character of the device's name.
#[derive(Clone, Copy, Debug, PartialEq, Eq, Structural)]
pub struct DeviceName {
    pub char_index: u8,
}

impl DeviceName {
    pub open spec fn spec_from_report(r: ReportModel) -> DeviceName {
        DeviceName { char_index: byte_at(r.fap.params, 0) }
    }

    pub fn from_report(report: &HidppReport) -> (r: DeviceName)
        ensures
            r == DeviceName::spec_from_report(report@),
    {
        DeviceName { char_index: report.fap.param_at(0) }
    }
}

/// Every device type the feature can report.
#[derive(Clone, Copy, Debug, PartialEq, Eq, Structural)]
pub enum DeviceTypes {
    Keyboard,
    RemoteControl,
    Numpad,
    Mouse,
    Trackpad,
    Trackball,
    Presenter,
    Receiver,
    Headset,
    Webcam,
    SteeringWheel,
    Joystick,
    Gamepad,
    Dock,
    Speaker,
    Microphone,
    IlluminationLight,
    ProgrammableController,
    CarSimPedals,
    Adapter,
}

impl DeviceTypes {
    /// The device type a raw byte denotes, if any.
    pub open spec fn spec_from_byte(b: u8) -> Option<DeviceTypes> {
        if b == 0 {
            Some(DeviceTypes::Keyboard)
        } else if b == 1 {
            Some(DeviceTypes::RemoteControl)
        } else if b == 2 {
            Some(DeviceTypes::Numpad)
        } else if b == 3 {
            Some(DeviceTypes::Mouse)
        } else if b == 4 {
            Some(DeviceTypes::Trackpad)
        } else if b == 5 {
            Some(DeviceTypes::Trackball)
        } else if b == 6 {
            Some(DeviceTypes::Presenter)
        } else if b == 7 {
            Some(DeviceTypes::Receiver)
        } else if b == 8 {
            Some(DeviceTypes::Headset)
        } else if b == 9 {
            Some(DeviceTypes::Webcam)
        } else if b == 10 {
            Some(DeviceTypes::SteeringWheel)
        } else if b == 11 {
            Some(DeviceTypes::Joystick)
        } else if b == 12 {
            Some(DeviceTypes::Gamepad)
        } else if b == 13 {
            Some(DeviceTypes::Dock)
        } else if b == 14 {
            Some(DeviceTypes::Speaker)
        } else if b == 15 {
            Some(DeviceTypes::Microphone)
        } else if b == 16 {
            Some(DeviceTypes::IlluminationLight)
        } else if b == 17 {
            Some(DeviceTypes::ProgrammableController)
        } else if b == 18 {
            Some(DeviceTypes::CarSimPedals)
        } else if b == 19 {
            Some(DeviceTypes::Adapter)
        } else {
            None
        }
    }

    pub fn try_from_byte(b: u8) -> (r: Option<DeviceTypes>)
        ensures
            r == DeviceTypes::spec_from_byte(b),
    {
        if b == 0 {
            Some(DeviceTypes::Keyboard)
        } else if b == 1 {
            Some(DeviceTypes::RemoteControl)
        } else if b == 2 {
            Some(DeviceTypes::Numpad)
        } else if b == 3 {
            Some(DeviceTypes::Mouse)
        } else if b == 4 {
            Some(DeviceTypes::Trackpad)
        } else if b == 5 {
            Some(DeviceTypes::Trackball)
        } else if b == 6 {
            Some(DeviceTypes::Presenter)
        } else if b == 7 {
            Some(DeviceTypes::Receiver)
        } else if b == 8 {
            Some(DeviceTypes::Headset)
        } else if b == 9 {
            Some(DeviceTypes::Webcam)
        } else if b == 10 {
            Some(DeviceTypes::SteeringWheel)
        } else if b == 11 {
            Some(DeviceTypes::Joystick)
        } else if b == 12 {
            Some(DeviceTypes::Gamepad)
        } else if b == 13 {
            Some(DeviceTypes::Dock)
        } else if b == 14 {
            Some(DeviceTypes::Speaker)
        } else if b == 15 {
            Some(DeviceTypes::Microphone)
        } else if b == 16 {
            Some(DeviceTypes::IlluminationLight)
        } else if b == 17 {
            Some(DeviceTypes::ProgrammableController)
        } else if b == 18 {
            Some(DeviceTypes::CarSimPedals)
        } else if b == 19 {
            Some(DeviceTypes::Adapter)
        } else {
            None
        }
    }
}

/// What kind of device this is, when the reported byte is a known type.
#[derive(Clone, Copy, Debug, PartialEq, Eq, Structural)]
pub struct DeviceType {
    pub device_type: Option<DeviceTypes>,
}

impl DeviceType {
    pub open spec fn spec_from_report(r: ReportModel) -> DeviceType {
        DeviceType { device_type: DeviceTypes::spec_from_byte(byte_at(r.fap.params, 0)) }
    }

    pub fn from_report(report: &HidppReport) -> (r: DeviceType)
        ensures
            r == DeviceType::spec_from_report(report@),
    {
        DeviceType { device_type: DeviceTypes::try_from_byte(report.fap.param_at(0)) }
    }
}

#[derive(Clone, Copy)]
enum FuncIndex {
    GetDeviceNameCount,
    GetDeviceName,
    GetDeviceType,
}

impl FuncIndex {
    spec fn spec_code(self) -> u8 {
        match self {
            FuncIndex::GetDeviceNameCount => 0,
            FuncIndex::GetDeviceName => 1,
            FuncIndex::GetDeviceType => 2,
        }
    }

    fn code(self) -> (r: u8)
        ensures
            r == self.spec_code(),
            r < 16,
    {
        match self {
            FuncIndex::GetDeviceNameCount => 0,
            FuncIndex::GetDeviceName => 1,
            FuncIndex::GetDeviceType => 2,
        }
    }
}

/// The device type and name feature, bound to its feature index.
pub struct DeviceTypeNameImpl {
    pub common_impl: CommonFeatureImpl,
}

impl DeviceTypeNameImpl {
    fn new_fap_builder(&self, func_index: FuncIndex) -> (r: FapBuilder)
        ensures
            r.wf(),
            r.copied_len == 0,
            r.built@.feature_index == self.common_impl.feature_index,
            r.built@.funcindex_clientid == ((func_index.spec_code() << 4u8) | SW_ID) as u8,
            r.built@.params == spec_default_fap().params,
    {
        FapBuilder::new().feature_index(self.common_impl.feature_index).funcindex(
            func_index.code(),
        )
    }

    pub fn get_device_name<RAS: ReportAsyncSender>(
        &mut self,
        context: &mut Context<RAS>,
        char_index: u8,
    ) -> (r: Result<DeviceName, FeatureError>)
        requires
            old(context).wf(),
        ensures
            final(context).wf(),
            r matches Err(e) ==> spec_feature_failure(e),
    {
        let mut params: Vec<u8> = Vec::new();
        params.push(char_index);
        let fap = self.new_fap_builder(FuncIndex::GetDeviceName).params(params.as_slice());
        let report = self.common_impl.send_fap_command(context, fap)?;
        Ok(DeviceName::from_report(&report))
    }

    pub fn get_device_name_count<RAS: ReportAsyncSender>(
        &mut self,
        context: &mut Context<RAS>,
    ) -> (r: Result<DeviceNameCount, FeatureError>)
        requires
            old(context).wf(),
        ensures
            final(context).wf(),
            r matches Err(e) ==> spec_feature_failure(e),
    {
        let fap = self.new_fap_builder(FuncIndex::GetDeviceNameCount);
        let report = self.common_impl.send_fap_command(context, fap)?;
        Ok(DeviceNameCount::from_report(&report))
    }

    pub fn get_device_type<RAS: ReportAsyncSender>(
        &mut self,
        context: &mut Context<RAS>,
    ) -> (r: Result<DeviceType, FeatureError>)
        requires
            old(context).wf(),
        ensures
            final(context).wf(),
            r matches Err(e) ==> spec_feature_failure(e),
    {
        let fap = self.new_fap_builder(FuncIndex::GetDeviceType);
        let report = self.common_impl.send_fap_command(context, fap)?;
        Ok(DeviceType::from_report(&report))
    }
}

/// Binds the feature if the device has it and does not hide it.
pub fn init<RAS: ReportAsyncSender>(
    context: &mut Context<RAS>,
    root: &mut RootImpl,
) -> (r: Result<Option<DeviceTypeNameImpl>, FeatureError>)
    requires
        old(context).wf(),
    ensures
        final(context).wf(),
        r matches Err(e) ==> spec_feature_failure(e),
{
    let accessor = access_common_impl(root, context, FEATURE_ID)?;
    match accessor {
        None => Ok(None),
        Some(common_impl) => Ok(Some(DeviceTypeNameImpl { common_impl })),
    }
}

} // verus!
