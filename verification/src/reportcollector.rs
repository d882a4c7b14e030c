//! A transport double that keeps every report it is handed.

use vstd::prelude::*;

use crate::report::HidppReport;
use crate::sender::ReportAsyncSender;
use crate::sender::TransportError;

verus! {

/// Saves all reports instead of sending them; the send always succeeds and
/// leaves the report untouched.
pub struct ReportCollector {
    /// All received reports.
    pub reports: Vec<HidppReport>,
}

impl ReportCollector {
    pub fn new() -> (r: Self)
        ensures
            r.reports@.len() == 0,
    {
        ReportCollector { reports: Vec::new() }
    }
}

impl Default for ReportCollector {
    fn default() -> (r: Self)
        ensures
            r.reports@.len() == 0,
    {
        ReportCollector { reports: Vec::new() }
    }
}

impl ReportAsyncSender for ReportCollector {
    fn send(&mut self, report: &mut HidppReport) -> (r: Result<(), TransportError>)
        ensures
            final(self).reports@.len() == old(self).reports@.len() + 1,
            final(self).reports@[old(self).reports@.len() as int]@ == old(report)@,
            forall|i: int|
                0 <= i < old(self).reports@.len() ==> final(self).reports@[i] == old(
                    self,
                ).reports@[i],
            *final(report) == *old(report),
            r is Ok,
    {
        self.reports.push(report.clone());
        Ok(())
    }
}

} // verus!
