//! Command glue shared by every concrete feature.

use vstd::prelude::*;

use crate::context::Context;
use crate::features::feature_error_of;
use crate::features::spec_feature_failure;
use crate::features::FeatureError;
use crate::report::FapBuilder;
use crate::report::HidppReport;
use crate::sender::spec_is_error_report;
use crate::sender::ReportAsyncSender;

verus! {

/// A feature bound to its index in the device's feature table.
pub struct CommonFeatureImpl {
    pub feature_index: u8,
}

impl CommonFeatureImpl {
    /// Sends one feature-access command through the context and maps the
    /// failure into the feature layer's error type: a protocol error
    /// surfaces under its typed variant, everything else as internal.
    pub fn send_fap_command<RAS: ReportAsyncSender>(
        &mut self,
        context: &mut Context<RAS>,
        fap: FapBuilder,
    ) -> (r: Result<HidppReport, FeatureError>)
        requires
            old(context).wf(),
            fap.wf(),
        ensures
            final(context).wf(),
            r matches Ok(answer) ==> !spec_is_error_report(answer@),
            r matches Err(e) ==> spec_feature_failure(e),
    {
        match context.sender.send(fap) {
            Ok(answer) => Ok(answer),
            Err(err) => Err(feature_error_of(err)),
        }
    }
}

} // verus!
