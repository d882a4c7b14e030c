//! The correlator state shared between the inbound read loop and the
//! synchronous command path: the dispatcher behind a verified
//! reader/writer lock, so both sides reach it through a shared reference
//! — the read loop keeps running while a command blocks on its answer.

use vstd::prelude::*;
use vstd::rwlock::RwLock;

use std::sync::mpsc::SyncSender;

use crate::receiver::EventClass;
use crate::receiver::PendingAnswer;
use crate::receiver::ReportDispatcher;
use crate::report::HidppReport;

verus! {

/// A `ReportDispatcher` behind a lock. The lock hides the slot's state
/// from function contracts — what each step does is specified and proved
/// on `ReportDispatcher` itself, and every method here is one locked call
/// of the corresponding dispatcher method.
pub struct SharedDispatcher {
    lock: RwLock<ReportDispatcher, spec_fn(ReportDispatcher) -> bool>,
}

impl SharedDispatcher {
    /// The lock's invariant holds of exactly the well-formed dispatchers:
    /// whatever is stored, a registered question is a well-formed report.
    pub closed spec fn wf(&self) -> bool {
        forall|d: ReportDispatcher| #[trigger] self.lock.inv(d) == d.wf()
    }

    pub fn new(broadcasts: SyncSender<HidppReport>) -> (r: Self)
        ensures
            r.wf(),
    {
        let dispatcher = ReportDispatcher::new(broadcasts);
        let lock = RwLock::new(dispatcher, Ghost(|d: ReportDispatcher| d.wf()));
        SharedDispatcher { lock }
    }

    /// Installs the registration; one already present is replaced, which
    /// the callers' serialization rules out.
    pub fn attach_pending_answer(&self, answer: PendingAnswer)
        requires
            self.wf(),
            answer.wf(),
    {
        let (mut dispatcher, handle) = self.lock.acquire_write();
        dispatcher.attach_pending_answer(answer);
        proof {
            assert(self.lock.inv(dispatcher) == dispatcher.wf());
        }
        handle.release_write(dispatcher);
    }

    /// Clears the registration unconditionally; idempotent.
    pub fn detach_pending_answer(&self)
        requires
            self.wf(),
    {
        let (mut dispatcher, handle) = self.lock.acquire_write();
        dispatcher.detach_pending_answer();
        proof {
            assert(self.lock.inv(dispatcher) == dispatcher.wf());
        }
        handle.release_write(dispatcher);
    }

    /// Whether a registration is installed right now.
    pub fn has_pending_answer(&self) -> bool
        requires
            self.wf(),
    {
        let handle = self.lock.acquire_read();
        let r = handle.borrow().has_pending_answer();
        handle.release_read();
        r
    }

    /// One demultiplexing step under the lock; the step itself is
    /// `ReportDispatcher::process_event`, with its contract.
    pub fn process_event(&self, report: HidppReport) -> (c: EventClass)
        requires
            self.wf(),
    {
        let (mut dispatcher, handle) = self.lock.acquire_write();
        let ghost pre = dispatcher;
        let c = dispatcher.process_event(report);
        proof {
            assert(dispatcher.wf()) by {
                assert(ReportDispatcher::spec_same_shape(pre, dispatcher));
            }
            assert(self.lock.inv(dispatcher) == dispatcher.wf());
        }
        handle.release_write(dispatcher);
        c
    }
}

} // verus!
