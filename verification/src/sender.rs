//! The synchronous command sender: serializes callers, registers the
//! pending answer, hands the frame to the asynchronous transport, and
//! blocks on the rendezvous until the answer, a protocol error, or the
//! timeout.

use vstd::prelude::*;

use std::sync::Arc;

use crate::chan::report_sync_channel;
use crate::chan::ReportChannelSender;
use crate::error::CommandError;
use crate::error::Hidpp20Error;
use crate::error::HIDPP20_ERROR_FEATURE_INDEX;
use crate::receiver::PendingAnswer;
use crate::report::byte_at;
use crate::report::FapBuilder;
use crate::report::HidppReport;
use crate::report::ReportModel;
use crate::report::REPORT_ID_HIDPP_LONG;
use crate::report::REPORT_ID_HIDPP_VERY_LONG;
use crate::shared::SharedDispatcher;
use crate::wait::wait_event_timeout;
use crate::wait::WaitError;

verus! {

/// How long a call waits for its answer before failing with a timeout.
pub const ANSWER_TIMEOUT_SECS: u64 = 5;

/// Why a transport refused an outbound report.
#[derive(Clone, Copy, Debug, PartialEq, Eq, Structural)]
pub enum TransportError {
    Rejected,
}

/// A transport that places one report on the physical link and does not
/// wait for an answer. The transport may overwrite the report's device
/// index with the real receiver address.
pub trait ReportAsyncSender {
    fn send(&mut self, report: &mut HidppReport) -> (r: Result<(), TransportError>);
}

/// True iff the report is a HID++ 2.0 protocol error frame: a LONG or
/// VERY_LONG report whose feature index is the error sentinel.
pub open spec fn spec_is_error_report(r: ReportModel) -> bool {
    (r.report_id == REPORT_ID_HIDPP_LONG || r.report_id == REPORT_ID_HIDPP_VERY_LONG)
        && r.fap.feature_index == HIDPP20_ERROR_FEATURE_INDEX
}

/// Turns a delivered report into the call's outcome: a protocol error
/// frame becomes the typed error its second parameter byte encodes, any
/// other report is the successful answer.
pub fn translate_answer(answer: HidppReport) -> (r: Result<HidppReport, CommandError>)
    ensures
        !spec_is_error_report(answer@) ==> r == Ok::<HidppReport, CommandError>(answer),
        spec_is_error_report(answer@) ==> r == Err::<HidppReport, CommandError>(
            CommandError::Protocol(Hidpp20Error::spec_from_code(byte_at(answer@.fap.params, 1))),
        ),
{
    let is_error = (answer.report_id == REPORT_ID_HIDPP_LONG || answer.report_id
        == REPORT_ID_HIDPP_VERY_LONG) && answer.fap.feature_index == HIDPP20_ERROR_FEATURE_INDEX;
    if is_error {
        let code = if answer.fap.params.len() > 1 {
            answer.fap.params[1]
        } else {
            0
        };
        Err(CommandError::Protocol(Hidpp20Error::from_code(code)))
    } else {
        Ok(answer)
    }
}

/// Turns the outcome of the bounded wait into the command's outcome: a
/// delivered report is translated, and a wait that ended without one — by
/// the timeout, or because the registration and its sending half are
/// already gone — resolves to the timeout error: either way no matching
/// answer arrived in time.
pub fn command_outcome(waited: Result<HidppReport, WaitError>) -> (r: Result<
    HidppReport,
    CommandError,
>)
    ensures
        waited matches Ok(answer) ==> ((!spec_is_error_report(answer@) ==> r == Ok::<
            HidppReport,
            CommandError,
        >(answer)) && (spec_is_error_report(answer@) ==> r == Err::<HidppReport, CommandError>(
            CommandError::Protocol(Hidpp20Error::spec_from_code(byte_at(answer@.fap.params, 1))),
        ))),
        waited is Err ==> r == Err::<HidppReport, CommandError>(CommandError::TimedOut),
{
    match waited {
        Ok(answer) => translate_answer(answer),
        Err(_) => Err(CommandError::TimedOut),
    }
}

/// Sends feature-access commands and waits for the matching answer. The
/// exclusive borrow it demands for the whole call is what keeps a second
/// request out until the first one's registration is cleared; the
/// dispatcher itself is shared, so the inbound read loop keeps running
/// while the call blocks.
pub struct FapCommandSyncSender<RAS: ReportAsyncSender> {
    pub processor: Arc<SharedDispatcher>,
    pub sender: RAS,
}

impl<RAS: ReportAsyncSender> FapCommandSyncSender<RAS> {
    pub open spec fn wf(&self) -> bool {
        (*self.processor).wf()
    }

    pub fn new(sender: RAS, processor: Arc<SharedDispatcher>) -> (r: Self)
        ensures
            r.processor == processor,
            r.sender == sender,
    {
        FapCommandSyncSender { processor, sender }
    }

    /// One complete request/response exchange: build the envelope, register
    /// the pending answer, hand the frame to the transport, wait for the
    /// rendezvous, translate error frames. Exactly one of the spec's four
    /// outcomes comes back, and the registration is cleared on every exit
    /// path before the call returns.
    pub fn send(&mut self, fap: FapBuilder) -> (r: Result<HidppReport, CommandError>)
        requires
            old(self).wf(),
            fap.wf(),
        ensures
            final(self).wf(),
            final(self).processor == old(self).processor,
            r matches Ok(answer) ==> !spec_is_error_report(answer@),
            r matches Err(e) ==> (e == CommandError::Transport || e == CommandError::TimedOut || (
            e matches CommandError::Protocol(_))),
    {
        let message = HidppReport::new(fap);

        let (channel_sender, channel_receiver) = report_sync_channel(0);
        self.processor.attach_pending_answer(
            PendingAnswer {
                question: message.clone(),
                answer: ReportChannelSender::new(channel_sender),
            },
        );

        let mut outgoing = message;
        let sent = self.sender.send(&mut outgoing);
        if sent.is_err() {
            self.processor.detach_pending_answer();
            return Err(CommandError::Transport);
        }

        let waited = wait_event_timeout(&channel_receiver, ANSWER_TIMEOUT_SECS);
        self.processor.detach_pending_answer();
        command_outcome(waited)
    }
}

} // verus!
