//! The event correlator: consumes the inbound stream of decoded reports
//! and demultiplexes each one into the answer someone is waiting for, a
//! protocol error for the pending request, foreign traffic, or a
//! broadcast.

use vstd::prelude::*;

use std::sync::mpsc::SyncSender;

use crate::chan::ReportChannelSender;
use crate::error::HIDPP20_ERROR_FEATURE_INDEX;
use crate::report::byte_at;
use crate::report::spec_has_sw_id;
use crate::report::HidppReport;
use crate::report::ReportModel;

verus! {

/// The models of a sequence of reports, in order.
pub open spec fn spec_models_of(reports: Seq<HidppReport>) -> Seq<ReportModel> {
    reports.map_values(|r: HidppReport| r@)
}

/// A source of decoded inbound reports; yields nothing exactly at end of
/// stream.
pub trait ReportSource {
    /// The models of the reports still to come, in arrival order.
    spec fn remaining(&self) -> Seq<ReportModel>;

    fn next_report(&mut self) -> (r: Option<HidppReport>)
        ensures
            r matches Some(rep) ==> old(self).remaining().len() > 0 && rep@ == old(
                self,
            ).remaining()[0] && final(self).remaining() == old(self).remaining().skip(1),
            r is None ==> old(self).remaining().len() == 0 && final(self).remaining() == old(
                self,
            ).remaining(),
    ;
}

/// A finite, in-memory source of reports, handed out in order.
pub struct ReportQueue {
    pub reports: Vec<HidppReport>,
    pub next: usize,
}

impl ReportQueue {
    pub fn new(reports: Vec<HidppReport>) -> (r: Self)
        ensures
            r.reports == reports,
            r.next == 0,
    {
        ReportQueue { reports, next: 0 }
    }
}

impl ReportSource for ReportQueue {
    open spec fn remaining(&self) -> Seq<ReportModel> {
        if self.next <= self.reports@.len() {
            spec_models_of(self.reports@).skip(self.next as int)
        } else {
            Seq::empty()
        }
    }

    fn next_report(&mut self) -> (r: Option<HidppReport>) {
        if self.next < self.reports.len() {
            let report = self.reports[self.next].clone();
            self.next = self.next + 1;
            proof {
                assert(old(self).remaining()[0] == spec_models_of(self.reports@)[old(
                    self,
                ).next as int]);
                assert(spec_models_of(self.reports@)[old(self).next as int] == self.reports@[old(
                    self,
                ).next as int]@);
                assert(self.remaining() =~= old(self).remaining().skip(1));
            }
            Some(report)
        } else {
            None
        }
    }
}

/// The single in-flight registration: the question that was sent, kept for
/// matching, and the rendezvous channel its answer goes out on.
pub struct PendingAnswer {
    pub question: HidppReport,
    pub answer: ReportChannelSender,
}

impl PendingAnswer {
    pub open spec fn wf(&self) -> bool {
        self.question.wf()
    }
}

/// True iff `answer` is the direct answer to `question`: same feature
/// index and same function-and-client byte.
pub open spec fn spec_match_answer(question: ReportModel, answer: ReportModel) -> bool {
    answer.fap.feature_index == question.fap.feature_index
        && answer.fap.funcindex_clientid == question.fap.funcindex_clientid
}

/// True iff `answer` is the protocol error report for `question`: the
/// error sentinel in the feature index, the question's feature index where
/// the function byte normally sits, and the question's function byte in
/// the first parameter.
pub open spec fn spec_match_error(question: ReportModel, answer: ReportModel) -> bool {
    answer.fap.feature_index == HIDPP20_ERROR_FEATURE_INDEX
        && answer.fap.funcindex_clientid == question.fap.feature_index
        && byte_at(answer.fap.params, 0) == question.fap.funcindex_clientid
}

pub fn match_answer(question: &HidppReport, answer: &HidppReport) -> (r: bool)
    ensures
        r == spec_match_answer(question@, answer@),
{
    (answer.fap.feature_index == question.fap.feature_index) && (answer.fap.funcindex_clientid
        == question.fap.funcindex_clientid)
}

pub fn match_error(question: &HidppReport, answer: &HidppReport) -> (r: bool)
    ensures
        r == spec_match_error(question@, answer@),
{
    let first_param = if answer.fap.params.len() > 0 {
        answer.fap.params[0]
    } else {
        0
    };
    (answer.fap.feature_index == HIDPP20_ERROR_FEATURE_INDEX) && (answer.fap.funcindex_clientid
        == question.fap.feature_index) && (first_param == question.fap.funcindex_clientid)
}

/// What the correlator decides to do with one inbound report.
#[derive(Clone, Copy, Debug, PartialEq, Eq, Structural)]
pub enum EventClass {
    /// The direct answer to the pending question.
    Answer,
    /// The protocol error report for the pending question.
    ProtocolError,
    /// An answer addressed to some other software client on the link.
    Foreign,
    /// An unsolicited device event.
    Broadcast,
}

/// The demultiplexing rule, applied to the pending question (if any) and
/// one inbound report.
pub open spec fn spec_classify(question: Option<ReportModel>, report: ReportModel) -> EventClass {
    match question {
        Some(q) => if spec_match_answer(q, report) {
            EventClass::Answer
        } else if spec_match_error(q, report) {
            EventClass::ProtocolError
        } else if spec_has_sw_id(report.fap.funcindex_clientid) {
            EventClass::Foreign
        } else {
            EventClass::Broadcast
        },
        None => if spec_has_sw_id(report.fap.funcindex_clientid) {
            EventClass::Foreign
        } else {
            EventClass::Broadcast
        },
    }
}

/// Matching: while a question is registered whose feature index is not
/// the error sentinel, an inbound report that repeats the question's
/// feature index and function-and-client byte is classified as the direct
/// answer, and the error report for that question — the sentinel in the
/// feature index, the question's feature index in the function byte, and
/// the question's function byte in the first parameter — as the protocol
/// error.
pub proof fn lemma_classify_matching(question: ReportModel, report: ReportModel)
    requires
        question.fap.feature_index != HIDPP20_ERROR_FEATURE_INDEX,
    ensures
        spec_match_answer(question, report) ==> spec_classify(Some(question), report)
            == EventClass::Answer,
        spec_match_error(question, report) ==> spec_classify(Some(question), report)
            == EventClass::ProtocolError,
{
}

/// Non-interference: an inbound report that answers neither the pending
/// question nor is its error report, but carries some client's non-zero
/// id, is classified as foreign traffic — neither delivered nor forwarded
/// as a broadcast.
pub proof fn lemma_foreign_discarded(question: Option<ReportModel>, report: ReportModel)
    requires
        spec_has_sw_id(report.fap.funcindex_clientid),
        question matches Some(q) ==> !spec_match_answer(q, report) && !spec_match_error(q, report),
    ensures
        spec_classify(question, report) == EventClass::Foreign,
{
}

/// Broadcast forwarding: an inbound report with client id zero, arriving
/// while nothing is registered, is classified as a broadcast.
pub proof fn lemma_broadcast_forwarded(report: ReportModel)
    requires
        !spec_has_sw_id(report.fap.funcindex_clientid),
    ensures
        spec_classify(None, report) == EventClass::Broadcast,
{
}

/// The model of an optional question.
pub open spec fn spec_question_of(question: Option<&HidppReport>) -> Option<ReportModel> {
    match question {
        Some(q) => Some(q@),
        None => None,
    }
}

pub fn classify_event(question: Option<&HidppReport>, report: &HidppReport) -> (r: EventClass)
    ensures
        r == spec_classify(spec_question_of(question), report@),
{
    match question {
        Some(q) => {
            if match_answer(q, report) {
                EventClass::Answer
            } else if match_error(q, report) {
                EventClass::ProtocolError
            } else if report.has_sw_id() {
                EventClass::Foreign
            } else {
                EventClass::Broadcast
            }
        },
        None => {
            if report.has_sw_id() {
                EventClass::Foreign
            } else {
                EventClass::Broadcast
            }
        },
    }
}

/// The heart of the correlator: the pending-answer slot and the broadcast
/// output, with the demultiplexing step over them.
pub struct ReportDispatcher {
    pub current: Option<PendingAnswer>,
    pub broadcasts: ReportChannelSender,
}

impl ReportDispatcher {
    pub open spec fn wf(&self) -> bool {
        match self.current {
            Some(p) => p.wf(),
            None => true,
        }
    }

    /// The model of the registered question, if any.
    pub open spec fn spec_question(&self) -> Option<ReportModel> {
        match self.current {
            Some(p) => Some(p.question@),
            None => None,
        }
    }

    /// The record of reports handed to the pending answer channel; empty
    /// while none is registered.
    pub open spec fn spec_answer_history(&self) -> Seq<ReportModel> {
        match self.current {
            Some(p) => p.answer.history@,
            None => Seq::empty(),
        }
    }

    /// What dispatching never changes: whether a registration is there,
    /// its question, its channel, and the broadcast channel.
    pub open spec fn spec_same_shape(pre: Self, post: Self) -> bool {
        &&& post.broadcasts.tx == pre.broadcasts.tx
        &&& match (pre.current, post.current) {
            (Some(p), Some(q)) => q.question == p.question && q.answer.tx == p.answer.tx,
            (None, None) => true,
            _ => false,
        }
    }

    /// What one demultiplexing step does, given the class it computed:
    /// answers and protocol errors extend the registration's history by
    /// the report, broadcasts extend the broadcast history by it, foreign
    /// traffic changes nothing; the registration itself is never touched.
    pub open spec fn spec_dispatch_step(
        pre: Self,
        post: Self,
        report: ReportModel,
        c: EventClass,
    ) -> bool {
        &&& c == spec_classify(pre.spec_question(), report)
        &&& Self::spec_same_shape(pre, post)
        &&& (c == EventClass::Answer || c == EventClass::ProtocolError) ==> (
        post.spec_answer_history() == pre.spec_answer_history().push(report) && post.broadcasts
            == pre.broadcasts)
        &&& c == EventClass::Foreign ==> post == pre
        &&& c == EventClass::Broadcast ==> (post.broadcasts.history@ == pre.broadcasts.history@.push(
            report,
        ) && post.current == pre.current)
    }

    pub fn new(broadcasts: SyncSender<HidppReport>) -> (r: Self)
        ensures
            r.current is None,
            r.broadcasts.tx == broadcasts,
            r.broadcasts.history@ == Seq::<ReportModel>::empty(),
    {
        ReportDispatcher { current: None, broadcasts: ReportChannelSender::new(broadcasts) }
    }

    /// Installs the registration. The caller enforces that at most one
    /// request is in flight, so a registration already present is simply
    /// replaced.
    pub fn attach_pending_answer(&mut self, answer: PendingAnswer)
        ensures
            final(self).current == Some(answer),
            final(self).broadcasts == old(self).broadcasts,
    {
        self.current = Some(answer);
    }

    /// Clears the registration unconditionally; idempotent.
    pub fn detach_pending_answer(&mut self)
        ensures
            final(self).current is None,
            final(self).broadcasts == old(self).broadcasts,
    {
        self.current = None;
    }

    /// Whether a registration is installed.
    pub fn has_pending_answer(&self) -> (r: bool)
        ensures
            r == (self.current is Some),
    {
        self.current.is_some()
    }

    /// Demultiplexes one inbound report and says what it was: the answer
    /// or protocol error goes out on the registration's channel, a
    /// broadcast on the broadcast output, foreign traffic nowhere. Never
    /// clears the registration: only the call that attached it does, on
    /// its own exit.
    pub fn process_event(&mut self, report: HidppReport) -> (c: EventClass)
        ensures
            Self::spec_dispatch_step(*old(self), *final(self), report@, c),
    {
        let c = match &self.current {
            Some(p) => classify_event(Some(&p.question), &report),
            None => classify_event(None, &report),
        };
        match c {
            EventClass::Answer | EventClass::ProtocolError => {
                self.process_ase(report);
            },
            EventClass::Foreign => {},
            EventClass::Broadcast => {
                self.process_broadcast(report);
            },
        }
        c
    }

    /// Delivers an answer to the command that registered the question. A
    /// receiver that already gave up is no reason to stop the read loop:
    /// the undelivered report is dropped.
    fn process_ase(&mut self, report: HidppReport)
        requires
            old(self).current is Some,
        ensures
            Self::spec_same_shape(*old(self), *final(self)),
            final(self).spec_answer_history() == old(self).spec_answer_history().push(report@),
            final(self).broadcasts == old(self).broadcasts,
    {
        match &mut self.current {
            Some(p) => {
                let _ = p.answer.send(report);
            },
            None => {},
        }
    }

    /// Forwards an unsolicited event to the broadcast output; dropped when
    /// the broadcast consumer is gone.
    fn process_broadcast(&mut self, report: HidppReport)
        ensures
            final(self).broadcasts.history@ == old(self).broadcasts.history@.push(report@),
            final(self).broadcasts.tx == old(self).broadcasts.tx,
            final(self).current == old(self).current,
    {
        let _ = self.broadcasts.send(report);
    }
}

/// Of the models in `events`, those the demultiplexing rule sends to the
/// registration's answer channel, in arrival order.
pub open spec fn spec_answers_of(question: Option<ReportModel>, events: Seq<ReportModel>) -> Seq<
    ReportModel,
>
    decreases events.len(),
{
    if events.len() == 0 {
        Seq::empty()
    } else {
        let rest = spec_answers_of(question, events.drop_last());
        let c = spec_classify(question, events.last());
        if c == EventClass::Answer || c == EventClass::ProtocolError {
            rest.push(events.last())
        } else {
            rest
        }
    }
}

/// Of the models in `events`, those the demultiplexing rule forwards to
/// the broadcast output, in arrival order.
pub open spec fn spec_broadcasts_of(question: Option<ReportModel>, events: Seq<ReportModel>) -> Seq<
    ReportModel,
>
    decreases events.len(),
{
    if events.len() == 0 {
        Seq::empty()
    } else {
        let rest = spec_broadcasts_of(question, events.drop_last());
        if spec_classify(question, events.last()) == EventClass::Broadcast {
            rest.push(events.last())
        } else {
            rest
        }
    }
}

/// Processes every inbound report of a stream: answers and protocol
/// errors for the pending question go out on the registration's answer
/// channel, foreign traffic is discarded, everything else is forwarded as
/// a broadcast, all in arrival order.
pub struct FapCommandEventReceiver<EVS: ReportSource> {
    pub events: EVS,
    pub dispatcher: ReportDispatcher,
}

impl<EVS: ReportSource> FapCommandEventReceiver<EVS> {
    pub fn new(events: EVS, broadcasts: SyncSender<HidppReport>) -> (r: Self)
        ensures
            r.events == events,
            r.dispatcher.current is None,
            r.dispatcher.broadcasts.tx == broadcasts,
            r.dispatcher.broadcasts.history@ == Seq::<ReportModel>::empty(),
    {
        FapCommandEventReceiver { events, dispatcher: ReportDispatcher::new(broadcasts) }
    }

    pub fn attach_pending_answer(&mut self, answer: PendingAnswer)
        ensures
            final(self).dispatcher.current == Some(answer),
            final(self).dispatcher.broadcasts == old(self).dispatcher.broadcasts,
            final(self).events == old(self).events,
    {
        self.dispatcher.attach_pending_answer(answer);
    }

    pub fn detach_pending_answer(&mut self)
        ensures
            final(self).dispatcher.current is None,
            final(self).dispatcher.broadcasts == old(self).dispatcher.broadcasts,
            final(self).events == old(self).events,
    {
        self.dispatcher.detach_pending_answer();
    }

    pub fn has_pending_answer(&self) -> (r: bool)
        ensures
            r == (self.dispatcher.current is Some),
    {
        self.dispatcher.has_pending_answer()
    }

    /// One demultiplexing step on one inbound report; see
    /// `ReportDispatcher::process_event`.
    pub fn process_event(&mut self, report: HidppReport) -> (c: EventClass)
        ensures
            final(self).events == old(self).events,
            ReportDispatcher::spec_dispatch_step(
                old(self).dispatcher,
                final(self).dispatcher,
                report@,
                c,
            ),
    {
        self.dispatcher.process_event(report)
    }

    /// Drains the inbound stream to its end, one report at a time: on
    /// return the source is exhausted, the registration is untouched, the
    /// answer channel received exactly the reports classified as answers
    /// or protocol errors, and the broadcast output exactly those
    /// classified as broadcasts — each in arrival order.
    pub fn receive(&mut self)
        ensures
            final(self).events.remaining().len() == 0,
            ReportDispatcher::spec_same_shape(old(self).dispatcher, final(self).dispatcher),
            final(self).dispatcher.spec_answer_history() == old(
                self,
            ).dispatcher.spec_answer_history() + spec_answers_of(
                old(self).dispatcher.spec_question(),
                old(self).events.remaining(),
            ),
            final(self).dispatcher.broadcasts.history@ == old(self).dispatcher.broadcasts.history@
                + spec_broadcasts_of(
                old(self).dispatcher.spec_question(),
                old(self).events.remaining(),
            ),
    {
        let ghost q = self.dispatcher.spec_question();
        let ghost all = self.events.remaining();
        let ghost pre = self.dispatcher;
        let ghost mut processed: Seq<ReportModel> = Seq::empty();
        loop
            invariant
                all == processed + self.events.remaining(),
                self.dispatcher.spec_question() == q,
                ReportDispatcher::spec_same_shape(pre, self.dispatcher),
                self.dispatcher.spec_answer_history() == pre.spec_answer_history()
                    + spec_answers_of(q, processed),
                self.dispatcher.broadcasts.history@ == pre.broadcasts.history@ + spec_broadcasts_of(
                    q,
                    processed,
                ),
            ensures
                self.events.remaining().len() == 0,
                ReportDispatcher::spec_same_shape(pre, self.dispatcher),
                self.dispatcher.spec_answer_history() == pre.spec_answer_history()
                    + spec_answers_of(q, all),
                self.dispatcher.broadcasts.history@ == pre.broadcasts.history@ + spec_broadcasts_of(
                    q,
                    all,
                ),
            decreases self.events.remaining().len(),
        {
            let next = self.events.next_report();
            match next {
                None => {
                    proof {
                        assert(processed =~= all);
                    }
                    break ;
                },
                Some(report) => {
                    let ghost report_model = report@;
                    let ghost rem = self.events.remaining();
                    let _ = self.dispatcher.process_event(report);
                    proof {
                        let p2 = processed.push(report_model);
                        assert(p2.drop_last() =~= processed);
                        assert(p2.last() == report_model);
                        assert(all =~= p2 + rem);
                        if spec_classify(q, report_model) == EventClass::Answer || spec_classify(
                            q,
                            report_model,
                        ) == EventClass::ProtocolError {
                            assert(self.dispatcher.spec_answer_history() =~= pre.spec_answer_history()
                                + spec_answers_of(q, p2));
                        }
                        if spec_classify(q, report_model) == EventClass::Broadcast {
                            assert(self.dispatcher.broadcasts.history@ =~= pre.broadcasts.history@
                                + spec_broadcasts_of(q, p2));
                        }
                        processed = p2;
                    }
                },
            }
        }
    }
}

} // verus!
