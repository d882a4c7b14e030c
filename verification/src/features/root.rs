//! The root feature: feature-table lookup and protocol version.

use vstd::prelude::*;

use crate::context::Context;
use crate::error::CommandError;
use crate::features::feature_error_of;
use crate::features::spec_feature_failure;
use crate::features::FeatureError;
use crate::report::byte_at;
use crate::report::FapBuilder;
use crate::report::HidppReport;
use crate::report::ReportModel;
use crate::report::spec_default_fap;
use crate::report::SW_ID;
use crate::sender::spec_is_error_report;
use crate::sender::ReportAsyncSender;

verus! {

/// The root feature always sits at feature index zero.
const FEATURE_ID: u8 = 0x00;

#[derive(Clone, Copy)]
enum FuncIndex {
    GetFeature,
    GetProtocolVersion,
}

impl FuncIndex {
    spec fn spec_code(self) -> u8 {
        match self {
            FuncIndex::GetFeature => 0,
            FuncIndex::GetProtocolVersion => 1,
        }
    }

    fn code(self) -> (r: u8)
        ensures
            r == self.spec_code(),
            r < 16,
    {
        match self {
            FuncIndex::GetFeature => 0,
            FuncIndex::GetProtocolVersion => 1,
        }
    }
}

/// The type flags a feature-table entry carries.
#[derive(Clone, Copy, Debug, PartialEq, Eq, Structural)]
pub struct RootFeatureType {
    pub compl_deact: bool,
    pub manuf_deact: bool,
    pub eng: bool,
    pub hidden: bool,
    pub obsl: bool,
}

impl RootFeatureType {
    /// The flags encoded in one type byte.
    pub open spec fn spec_from_byte(b: u8) -> RootFeatureType {
        RootFeatureType {
            compl_deact: (b >> 3) & 1 == 1,
            manuf_deact: (b >> 4) & 1 == 1,
            eng: (b >> 5) & 1 == 1,
            hidden: (b >> 6) & 1 == 1,
            obsl: (b >> 7) & 1 == 1,
        }
    }

    pub fn from_byte(b: u8) -> (r: RootFeatureType)
        ensures
            r == RootFeatureType::spec_from_byte(b),
    {
        RootFeatureType {
            compl_deact: (b >> 3) & 1 == 1,
            manuf_deact: (b >> 4) & 1 == 1,
            eng: (b >> 5) & 1 == 1,
            hidden: (b >> 6) & 1 == 1,
            obsl: (b >> 7) & 1 == 1,
        }
    }
}

/// One feature-table entry: where the feature sits, its type flags, and
/// its version.
#[derive(Clone, Copy, Debug, PartialEq, Eq, Structural)]
pub struct RootFeature {
    pub feature_index: u8,
    pub feature_type: RootFeatureType,
    pub feature_version: u8,
}

impl RootFeature {
    /// The entry encoded in an answer's first three parameter bytes.
    pub open spec fn spec_from_report(r: ReportModel) -> RootFeature {
        RootFeature {
            feature_index: byte_at(r.fap.params, 0),
            feature_type: RootFeatureType::spec_from_byte(byte_at(r.fap.params, 1)),
            feature_version: byte_at(r.fap.params, 2),
        }
    }

    pub fn from_report(report: &HidppReport) -> (r: RootFeature)
        ensures
            r == RootFeature::spec_from_report(report@),
    {
        RootFeature {
            feature_index: report.fap.param_at(0),
            feature_type: RootFeatureType::from_byte(report.fap.param_at(1)),
            feature_version: report.fap.param_at(2),
        }
    }
}

/// The protocol version an answer to the ping carries.
#[derive(Clone, Copy, Debug, PartialEq, Eq, Structural)]
pub struct RootProtocolVersion {
    pub protocol_num: u8,
    pub target_sw: u8,
    pub ping_data: u8,
}

impl RootProtocolVersion {
    pub open spec fn spec_from_report(r: ReportModel) -> RootProtocolVersion {
        RootProtocolVersion {
            protocol_num: byte_at(r.fap.params, 0),
            target_sw: byte_at(r.fap.params, 1),
            ping_data: byte_at(r.fap.params, 2),
        }
    }

    pub fn from_report(report: &HidppReport) -> (r: RootProtocolVersion)
        ensures
            r == RootProtocolVersion::spec_from_report(report@),
    {
        RootProtocolVersion {
            protocol_num: report.fap.param_at(0),
            target_sw: report.fap.param_at(1),
            ping_data: report.fap.param_at(2),
        }
    }
}

#[derive(Clone, Copy, Debug, PartialEq, Eq, Structural)]
pub enum RootError {
    Internal(CommandError),
}

impl RootError {
    /// The error's message text.
    pub open spec fn spec_display(self) -> Seq<char> {
        match self {
            RootError::Internal(err) => ("Internal Root Error: ")@ + err.spec_display(),
        }
    }

    pub fn display_string(&self) -> (r: String)
        ensures
            r@ == self.spec_display(),
    {
        match self {
            RootError::Internal(err) => {
                let mut s = String::from_str("Internal Root Error: ");
                let inner = err.display_string();
                s.append(inner.as_str());
                s
            },
        }
    }
}

/// Sends one root-feature command and maps the failure into the feature
/// layer's error type.
fn send_fap_command<RAS: ReportAsyncSender>(
    context: &mut Context<RAS>,
    fap: FapBuilder,
) -> (r: Result<HidppReport, FeatureError>)
    requires
        old(context).wf(),
        fap.wf(),
    ensures
        final(context).wf(),
        r matches Ok(answer) ==> !spec_is_error_report(answer@),
        r matches Err(e) ==> spec_feature_failure(e),
{
    match context.sender.send(fap) {
        Ok(answer) => Ok(answer),
        Err(err) => Err(feature_error_of(err)),
    }
}

#[derive(Clone, Copy, Debug, PartialEq, Eq, Structural)]
pub struct RootImpl {}

impl RootImpl {
    fn new_fap_builder(&self, func_index: FuncIndex) -> (r: FapBuilder)
        ensures
            r.wf(),
            r.copied_len == 0,
            r.built@.feature_index == FEATURE_ID,
            r.built@.funcindex_clientid == ((func_index.spec_code() << 4u8) | SW_ID) as u8,
            r.built@.params == spec_default_fap().params,
    {
        FapBuilder::new().feature_index(FEATURE_ID).funcindex(func_index.code())
    }

    /// Asks the device where the feature with this id sits in its feature
    /// table.
    pub fn get_feature<RAS: ReportAsyncSender>(
        &mut self,
        context: &mut Context<RAS>,
        feature_id: u16,
    ) -> (r: Result<RootFeature, FeatureError>)
        requires
            old(context).wf(),
        ensures
            final(context).wf(),
            r matches Err(e) ==> spec_feature_failure(e),
    {
        let mut params: Vec<u8> = Vec::new();
        params.push((feature_id >> 8) as u8);
        params.push((feature_id & 0xFF) as u8);
        let fap = self.new_fap_builder(FuncIndex::GetFeature).params(params.as_slice());
        let report = send_fap_command(context, fap)?;
        Ok(RootFeature::from_report(&report))
    }

    /// Pings the device for its protocol version.
    pub fn get_protocol_version<RAS: ReportAsyncSender>(
        &mut self,
        context: &mut Context<RAS>,
        ping_data: u8,
    ) -> (r: Result<RootProtocolVersion, FeatureError>)
        requires
            old(context).wf(),
        ensures
            final(context).wf(),
            r matches Err(e) ==> spec_feature_failure(e),
    {
        let mut params: Vec<u8> = Vec::new();
        params.push(0);
        params.push(0);
        params.push(ping_data);
        let fap = self.new_fap_builder(FuncIndex::GetProtocolVersion).params(params.as_slice());
        let report = send_fap_command(context, fap)?;
        Ok(RootProtocolVersion::from_report(&report))
    }
}

/// The root feature needs no lookup: it is always present.
pub fn init() -> (r: Result<Option<RootImpl>, FeatureError>)
    ensures
        r == Ok::<Option<RootImpl>, FeatureError>(Some(RootImpl {})),
{
    Ok(Some(RootImpl {}))
}

} // verus!
