//! The device session: one synchronous command sender wired to the shared
//! correlator, and the receive end of the broadcast output. The inbound
//! read loop runs concurrently against the same shared correlator; it is
//! arranged by whoever opens the device.

use vstd::prelude::*;

use std::sync::mpsc::Receiver;

use crate::error::CommandError;
use crate::report::FapBuilder;
use crate::report::HidppReport;
use crate::report::FAP_PARAMS_WIDTH;
use crate::sender::spec_is_error_report;
use crate::sender::FapCommandSyncSender;
use crate::sender::ReportAsyncSender;

verus! {

/// The current device context: the feature layer sends its commands
/// through it, and unsolicited device events come out of its broadcast
/// receiver.
pub struct Context<RAS: ReportAsyncSender> {
    pub sender: FapCommandSyncSender<RAS>,
    pub broadcasts_receiver: Receiver<HidppReport>,
}

impl<RAS: ReportAsyncSender> Context<RAS> {
    pub open spec fn wf(&self) -> bool {
        self.sender.wf()
    }

    pub fn new(sender: FapCommandSyncSender<RAS>, broadcasts_receiver: Receiver<HidppReport>) -> (r:
        Self)
        ensures
            r.sender == sender,
            r.broadcasts_receiver == broadcasts_receiver,
    {
        Context { sender, broadcasts_receiver }
    }

    /// One synchronous request through the session: builds the payload
    /// from the feature index, the function index and the parameter
    /// bytes, and resolves to exactly one of the answer, a transport
    /// failure, a timeout, or a typed protocol error.
    pub fn send(&mut self, feature_index: u8, function_index: u8, params: &[u8]) -> (r: Result<
        HidppReport,
        CommandError,
    >)
        requires
            old(self).wf(),
            function_index < 16,
            params@.len() <= FAP_PARAMS_WIDTH,
        ensures
            final(self).wf(),
            r matches Ok(answer) ==> !spec_is_error_report(answer@),
            r matches Err(e) ==> (e == CommandError::Transport || e == CommandError::TimedOut || (
            e matches CommandError::Protocol(_))),
    {
        let fap = FapBuilder::new().feature_index(feature_index).funcindex(function_index).params(
            params,
        );
        self.sender.send(fap)
    }

    /// The receive end of the broadcast output: an order-preserving,
    /// blocking sequence of unsolicited device events.
    pub fn broadcasts(&self) -> (r: &Receiver<HidppReport>)
        ensures
            r == &self.broadcasts_receiver,
    {
        &self.broadcasts_receiver
    }
}

} // verus!
