//! Trusted declarations of the rendezvous channels that carry reports
//! between the correlator and its consumers, together with the ghost
//! record of what was handed to each sending half.

use vstd::prelude::*;

use std::sync::mpsc::Receiver;
use std::sync::mpsc::SyncSender;

use crate::report::HidppReport;
use crate::report::ReportModel;

verus! {

#[verifier::external_type_specification]
#[verifier::external_body]
#[verifier::reject_recursive_types(T)]
pub struct ExSyncSender<T>(SyncSender<T>);

#[verifier::external_type_specification]
#[verifier::external_body]
#[verifier::reject_recursive_types(T)]
pub struct ExReceiver<T>(Receiver<T>);

/// Relies on std::sync::mpsc::sync_channel: a fresh bounded channel whose
/// sending half blocks for a rendezvous once `bound` messages are buffered.
#[verifier::external_body]
pub fn report_sync_channel(bound: usize) -> (r: (SyncSender<HidppReport>, Receiver<HidppReport>)) {
    std::sync::mpsc::sync_channel(bound)
}

/// The sending half of a report channel, with the ghost record of every
/// report handed to it, in order — whether or not the receiving half was
/// still there to take it.
pub struct ReportChannelSender {
    pub tx: SyncSender<HidppReport>,
    pub history: Ghost<Seq<ReportModel>>,
}

impl ReportChannelSender {
    pub fn new(tx: SyncSender<HidppReport>) -> (r: Self)
        ensures
            r.tx == tx,
            r.history@ == Seq::<ReportModel>::empty(),
    {
        ReportChannelSender { tx, history: Ghost(Seq::empty()) }
    }

    /// Relies on std::sync::mpsc::SyncSender::send: delivers the report to
    /// the receiving half, blocking for the rendezvous; it fails only when
    /// the receiver is gone, and then hands the undelivered report back.
    /// The history records the handed report either way.
    #[verifier::external_body]
    pub fn send(&mut self, report: HidppReport) -> (r: Result<(), HidppReport>)
        ensures
            final(self).tx == old(self).tx,
            final(self).history@ == old(self).history@.push(report@),
            r matches Err(rep) ==> rep == report,
    {
        match self.tx.send(report) {
            Ok(()) => Ok(()),
            Err(std::sync::mpsc::SendError(rep)) => Err(rep),
        }
    }
}

} // verus!
