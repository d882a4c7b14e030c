//! The feature layer: thin, typed encode/decode glue over the synchronous
//! command path.

pub mod common;
pub mod devicetypename;
pub mod illuminationlight;
pub mod root;

use vstd::prelude::*;

use crate::context::Context;
use crate::error::CommandError;
use crate::error::Hidpp20Error;
use crate::features::common::CommonFeatureImpl;
use crate::features::devicetypename::DeviceTypeNameImpl;
use crate::features::illuminationlight::IlluminationLightImpl;
use crate::features::root::RootFeature;
use crate::features::root::RootImpl;
use crate::sender::ReportAsyncSender;

verus! {

/// A feature call failed: either below the protocol (transport, timeout)
/// or the device answered with a HID++ 2.0 error.
#[derive(Clone, Copy, Debug, PartialEq, Eq, Structural)]
pub enum FeatureError {
    Internal(CommandError),
    Hidpp20(Hidpp20Error),
}

impl FeatureError {
    /// The error's message text.
    pub open spec fn spec_display(self) -> Seq<char> {
        match self {
            FeatureError::Internal(err) => ("Internal error: ")@ + err.spec_display(),
            FeatureError::Hidpp20(err) => err.spec_display(),
        }
    }

    pub fn display_string(&self) -> (r: String)
        ensures
            r@ == self.spec_display(),
    {
        match self {
            FeatureError::Internal(err) => {
                let mut s = String::from_str("Internal error: ");
                let inner = err.display_string();
                s.append(inner.as_str());
                s
            },
            FeatureError::Hidpp20(err) => err.display_string(),
        }
    }
}

/// The feature-layer reading of a command error: a protocol error
/// surfaces under its typed variant, where burying it in the internal one
/// would hide the device's own verdict; everything else stays internal.
pub open spec fn spec_feature_error_of(err: CommandError) -> FeatureError {
    match err {
        CommandError::Protocol(e) => FeatureError::Hidpp20(e),
        _ => FeatureError::Internal(err),
    }
}

pub fn feature_error_of(err: CommandError) -> (r: FeatureError)
    ensures
        r == spec_feature_error_of(err),
{
    match err {
        CommandError::Protocol(e) => FeatureError::Hidpp20(e),
        _ => FeatureError::Internal(err),
    }
}

/// The only failures a feature call surfaces: an underlying transport
/// failure or timeout, or the device's typed protocol error.
pub open spec fn spec_feature_failure(e: FeatureError) -> bool {
    (e matches FeatureError::Hidpp20(_)) || e == FeatureError::Internal(CommandError::Transport)
        || e == FeatureError::Internal(CommandError::TimedOut)
}

/// Keeps a looked-up feature only if the device does not mark it hidden:
/// a hidden feature yields nothing, a visible one comes back unchanged.
pub fn filter_visible(feature: RootFeature) -> (r: Option<RootFeature>)
    ensures
        feature.feature_type.hidden ==> r is None,
        !feature.feature_type.hidden ==> r == Some(feature),
{
    if feature.feature_type.hidden {
        None
    } else {
        Some(feature)
    }
}

/// Binds the common command glue to a looked-up feature's index; nothing
/// comes from nothing.
pub fn common_of(feature: Option<RootFeature>) -> (r: Option<CommonFeatureImpl>)
    ensures
        feature matches Some(f) ==> r == Some(CommonFeatureImpl { feature_index: f.feature_index }),
        feature is None ==> r is None,
{
    match feature {
        Some(f) => Some(CommonFeatureImpl { feature_index: f.feature_index }),
        None => None,
    }
}

/// Looks a feature up in the device's feature table and keeps it only if
/// the device does not mark it hidden.
pub fn build_root_feature<RAS: ReportAsyncSender>(
    root: &mut RootImpl,
    context: &mut Context<RAS>,
    feature_id: u16,
) -> (r: Result<Option<RootFeature>, FeatureError>)
    requires
        old(context).wf(),
    ensures
        final(context).wf(),
        r matches Ok(Some(f)) ==> !f.feature_type.hidden,
        r matches Err(e) ==> spec_feature_failure(e),
{
    let root_feature = root.get_feature(context, feature_id)?;
    Ok(filter_visible(root_feature))
}

/// Looks a feature up and, if it is present and visible, binds the common
/// command glue to its feature index.
pub fn access_common_impl<RAS: ReportAsyncSender>(
    root: &mut RootImpl,
    context: &mut Context<RAS>,
    feature_id: u16,
) -> (r: Result<Option<CommonFeatureImpl>, FeatureError>)
    requires
        old(context).wf(),
    ensures
        final(context).wf(),
        r matches Err(e) ==> spec_feature_failure(e),
{
    let root_feature = build_root_feature(root, context, feature_id)?;
    Ok(common_of(root_feature))
}

/// Every feature this crate knows of one device: the root feature is
/// always there, the others only where the device offers them.
pub struct Features {
    pub root: RootImpl,
    pub devicetypename: Option<DeviceTypeNameImpl>,
    pub illuminationlight: Option<IlluminationLightImpl>,
}

/// Collects all known features of a HID++ device, looking each one up
/// through the root feature.
pub fn collect_features<RAS: ReportAsyncSender>(context: &mut Context<RAS>) -> (r: Result<
    Features,
    FeatureError,
>)
    requires
        old(context).wf(),
    ensures
        final(context).wf(),
        r matches Err(e) ==> spec_feature_failure(e),
{
    let root_opt = crate::features::root::init()?;
    match root_opt {
        None => Err(FeatureError::Internal(CommandError::Transport)),
        Some(mut root) => {
            let devicetypename = crate::features::devicetypename::init(context, &mut root)?;
            let illuminationlight = crate::features::illuminationlight::init(context, &mut root)?;
            Ok(Features { root, devicetypename, illuminationlight })
        },
    }
}

} // verus!
