use std::collections::VecDeque;
use vstd::prelude::*;

use crate::approval::{request_kind, ApprovalDetails, ApprovalKind, ApprovalRequest};
use crate::decision::{line_decision, parse_decision, Decision};
use crate::events::ThreadEvent;
use crate::turn_result::{
    empty_record, fold_events, has_marker, lemma_completed_iff_marker, TurnRecord, TurnResult,
};

verus! {

/// What the session learned about itself, kept across turns.
#[derive(Debug)]
pub struct SessionInfo {
    pub session_id: Option<String>,
    pub rollout_path: Option<String>,
}

/// A raw event of the conversation, sorted by what the turn loop does with it.
#[derive(Debug)]
pub enum IncomingEvent {
    /// The session was configured: its id and where its transcript is kept.
    SessionConfigured { session_id: String, rollout_path: String },
    /// A request for approval, to be queued and announced.
    ApprovalRequest { request: ApprovalRequest },
    /// Anything else.
    Other,
}

/// One thing that the turn loop woke up for.
#[derive(Debug)]
pub enum TurnInput {
    /// The user interrupted.
    Cancelled,
    /// An event arrived, with the normalised events that it gives.
    Event { event: IncomingEvent, normalized: Vec<ThreadEvent> },
    /// The event stream ended.
    EventStreamClosed,
    /// A line of input arrived.
    Line { line: String },
    /// The input reached its end.
    InputClosed,
}

/// An operation to submit to the conversation.
#[derive(Debug, PartialEq, Eq)]
pub enum Submission {
    ExecApproval { id: String, decision: Decision },
    PatchApproval { id: String, decision: Decision },
    Interrupt,
}

/// What the loop has to do after one step.
#[derive(Debug)]
pub struct StepOutcome {
    /// An operation to submit.
    pub submit: Option<Submission>,
    /// Whether the request now last in the pending queue is to be announced.
    pub announce: bool,
    /// Whether to tell the user which answers are accepted.
    pub usage_hint: bool,
    /// Whether the turn is over.
    pub finished: bool,
}

/// The state of a turn, as plain values.
pub ghost struct TurnView {
    pub result: TurnRecord,
    pub pending: Seq<ApprovalRequest>,
    pub input_open: bool,
    pub finished: bool,
}

/// A turn in progress: its result so far and the approvals that wait for an answer.
#[derive(Debug)]
pub struct Turn {
    result: TurnResult,
    pending: VecDeque<ApprovalRequest>,
    input_open: bool,
    finished: bool,
}

impl View for Turn {
    type V = TurnView;

    closed spec fn view(&self) -> TurnView {
        TurnView {
            result: self.result@,
            pending: self.pending@,
            input_open: self.input_open,
            finished: self.finished,
        }
    }
}

/// An outcome that asks for nothing.
pub open spec fn idle(finished: bool) -> StepOutcome {
    StepOutcome { submit: None, announce: false, usage_hint: false, finished }
}

/// The operation that answers `req` with `d`, tagged with the request's kind.
pub open spec fn answer(req: ApprovalRequest, d: Decision) -> Submission {
    match request_kind(req) {
        ApprovalKind::Exec => Submission::ExecApproval { id: req.id, decision: d },
        ApprovalKind::Patch => Submission::PatchApproval { id: req.id, decision: d },
    }
}

/// The text recorded when the user interrupts a turn.
pub open spec fn interrupted_text() -> Seq<char> {
    "Interrupted by user"@
}

/// A cancellation: an interrupt is submitted, the fixed message is recorded, the turn is
/// over, and the pending approvals are left unanswered.
pub open spec fn cancel_step(pre: TurnView, post: TurnView, out: StepOutcome) -> bool {
    if pre.finished {
        post == pre && out == idle(true)
    } else {
        &&& post == TurnView {
            result: TurnRecord {
                errors: pre.result.errors.push(interrupted_text()),
                completed: true,
                ..pre.result
            },
            finished: true,
            ..pre
        }
        &&& out == StepOutcome {
            submit: Some(Submission::Interrupt),
            announce: false,
            usage_hint: false,
            finished: true,
        }
    }
}

/// An arriving event: it may update the session, queue and announce a request, and its
/// normalised events are folded in; the turn is over once the result is completed.
pub open spec fn receive_step(
    pre: TurnView,
    session_pre: SessionInfo,
    event: IncomingEvent,
    normalized: Seq<ThreadEvent>,
    post: TurnView,
    session_post: SessionInfo,
    out: StepOutcome,
) -> bool {
    if pre.finished {
        post == pre && session_post == session_pre && out == idle(true)
    } else {
        let result = fold_events(pre.result, normalized);
        &&& session_post == match event {
            IncomingEvent::SessionConfigured { session_id, rollout_path } => SessionInfo {
                session_id: Some(session_id),
                rollout_path: Some(rollout_path),
            },
            _ => session_pre,
        }
        &&& post == TurnView {
            result,
            pending: match event {
                IncomingEvent::ApprovalRequest { request } => pre.pending.push(request),
                _ => pre.pending,
            },
            finished: result.completed,
            ..pre
        }
        &&& out == StepOutcome {
            submit: None,
            announce: event is ApprovalRequest,
            usage_hint: false,
            finished: result.completed,
        }
    }
}

/// An answer to the request at the front of the queue: a decision submits the answer and
/// drops the request; no decision keeps the request at the front and asks for a hint.
/// With no request pending, or once the turn is over, nothing happens.
pub open spec fn resolve_step(
    pre: TurnView,
    decision: Option<Decision>,
    post: TurnView,
    out: StepOutcome,
) -> bool {
    if pre.finished || pre.pending.len() == 0 {
        post == pre && out == idle(pre.finished)
    } else {
        match decision {
            Some(d) => {
                &&& post == TurnView { pending: pre.pending.drop_first(), ..pre }
                &&& out == StepOutcome {
                    submit: Some(answer(pre.pending[0], d)),
                    announce: false,
                    usage_hint: false,
                    finished: false,
                }
            },
            None => post == pre && out == StepOutcome {
                submit: None,
                announce: false,
                usage_hint: true,
                finished: false,
            },
        }
    }
}

/// The end of the event stream ends the turn, without a result of its own.
pub open spec fn stream_closed_step(pre: TurnView, post: TurnView, out: StepOutcome) -> bool {
    post == TurnView { finished: true, ..pre } && out == idle(true)
}

/// The end of the input: no line is read again.
pub open spec fn input_closed_step(pre: TurnView, post: TurnView, out: StepOutcome) -> bool {
    post == TurnView { input_open: false, ..pre } && out == idle(pre.finished)
}

/// An event whose normalised events hold a success or failure marker ends a turn that was
/// not yet completed, right then; one whose events hold none leaves it going.
pub proof fn lemma_receive_ends_turn_at_marker(
    pre: TurnView,
    session_pre: SessionInfo,
    event: IncomingEvent,
    normalized: Seq<ThreadEvent>,
    post: TurnView,
    session_post: SessionInfo,
    out: StepOutcome,
)
    requires
        !pre.finished,
        !pre.result.completed,
        receive_step(pre, session_pre, event, normalized, post, session_post, out),
    ensures
        post.result.completed == has_marker(normalized),
        post.finished == has_marker(normalized),
        out.finished == has_marker(normalized),
{
    lemma_completed_iff_marker(pre.result, normalized);
}

/// Two answers to a queue of two or more requests go to the two oldest requests, in the
/// order they arrived, whatever their kinds.
pub proof fn lemma_answers_follow_arrival(
    p0: TurnView,
    d1: Decision,
    d2: Decision,
    p1: TurnView,
    o1: StepOutcome,
    p2: TurnView,
    o2: StepOutcome,
)
    requires
        !p0.finished,
        p0.pending.len() >= 2,
        resolve_step(p0, Some(d1), p1, o1),
        resolve_step(p1, Some(d2), p2, o2),
    ensures
        o1.submit == Some(answer(p0.pending[0], d1)),
        o2.submit == Some(answer(p0.pending[1], d2)),
        p2.pending == p0.pending.subrange(2, p0.pending.len() as int),
{
    assert(p1.pending[0] == p0.pending[1]);
    assert(p1.pending.drop_first() =~= p0.pending.subrange(2, p0.pending.len() as int));
}

/// A line that names no decision leaves the queue as it was, in length and order, and
/// submits nothing.
pub proof fn lemma_unparsed_line_keeps_queue(
    pre: TurnView,
    line: Seq<char>,
    post: TurnView,
    out: StepOutcome,
)
    requires
        line_decision(line) is None,
        resolve_step(pre, line_decision(line), post, out),
    ensures
        post.pending == pre.pending,
        out.submit is None,
{
}

/// With no request pending, a line of input changes nothing and asks for nothing.
pub proof fn lemma_no_pending_line_is_inert(
    pre: TurnView,
    line: Seq<char>,
    post: TurnView,
    out: StepOutcome,
)
    requires
        pre.pending.len() == 0,
        resolve_step(pre, line_decision(line), post, out),
    ensures
        post == pre,
        out == idle(pre.finished),
{
}

/// A cancellation of a running turn records the fixed message, completes the turn,
/// submits an interrupt, and leaves every pending request unanswered.
pub proof fn lemma_cancel_abandons_pending(pre: TurnView, post: TurnView, out: StepOutcome)
    requires
        !pre.finished,
        cancel_step(pre, post, out),
    ensures
        post.result.errors.contains(interrupted_text()),
        post.result.completed,
        post.finished,
        out.submit == Some(Submission::Interrupt),
        post.pending == pre.pending,
{
    assert(post.result.errors[post.result.errors.len() - 1] == interrupted_text());
}

impl Turn {
    /// Starts a turn, folding in the events known before it.
    pub fn start(bootstrap: Vec<ThreadEvent>) -> (r: Turn)
        ensures
            r@ == (TurnView {
                result: fold_events(empty_record(), bootstrap@),
                pending: Seq::empty(),
                input_open: true,
                finished: false,
            }),
    {
        let mut result = TurnResult::new();
        result.append_events(bootstrap);
        Turn { result, pending: VecDeque::new(), input_open: true, finished: false }
    }

    /// Whether a line of input is to be awaited: only while a request waits for an
    /// answer, the input is open and the turn goes on.
    pub fn wants_input(&self) -> (r: bool)
        ensures
            r == (!self@.finished && self@.input_open && self@.pending.len() > 0),
    {
        !self.finished && self.input_open && self.pending.len() > 0
    }

    /// Whether the turn is over.
    pub fn is_finished(&self) -> (r: bool)
        ensures
            r == self@.finished,
    {
        self.finished
    }

    /// The requests that wait for an answer, oldest first.
    pub fn pending(&self) -> (r: &VecDeque<ApprovalRequest>)
        ensures
            r@ == self@.pending,
    {
        &self.pending
    }

    /// The result so far.
    pub fn result(&self) -> (r: &TurnResult)
        ensures
            r@ == self@.result,
    {
        &self.result
    }

    /// Ends the turn, handing back its result.
    pub fn into_result(self) -> (r: TurnResult)
        ensures
            r@ == self@.result,
    {
        self.result
    }

    /// Handles a cancellation.
    pub fn cancel(&mut self) -> (r: StepOutcome)
        ensures
            cancel_step(old(self)@, final(self)@, r),
    {
        if self.finished {
            return StepOutcome { submit: None, announce: false, usage_hint: false, finished: true };
        }
        self.result.push_error("Interrupted by user".to_owned());
        self.result.mark_completed();
        self.finished = true;
        StepOutcome {
            submit: Some(Submission::Interrupt),
            announce: false,
            usage_hint: false,
            finished: true,
        }
    }

    /// Handles an arriving event and the normalised events that it gives.
    pub fn receive(
        &mut self,
        session: &mut SessionInfo,
        event: IncomingEvent,
        normalized: Vec<ThreadEvent>,
    ) -> (r: StepOutcome)
        ensures
            receive_step(
                old(self)@,
                *old(session),
                event,
                normalized@,
                final(self)@,
                *final(session),
                r,
            ),
    {
        if self.finished {
            return StepOutcome { submit: None, announce: false, usage_hint: false, finished: true };
        }
        let mut announce = false;
        match event {
            IncomingEvent::SessionConfigured { session_id, rollout_path } => {
                session.session_id = Some(session_id);
                session.rollout_path = Some(rollout_path);
            },
            IncomingEvent::ApprovalRequest { request } => {
                self.pending.push_back(request);
                announce = true;
            },
            IncomingEvent::Other => {},
        }
        self.result.append_events(normalized);
        self.finished = self.result.turn_complete();
        StepOutcome { submit: None, announce, usage_hint: false, finished: self.finished }
    }

    /// Applies an answer, or the lack of one, to the request at the front of the queue.
    pub fn resolve(&mut self, decision: Option<Decision>) -> (r: StepOutcome)
        ensures
            resolve_step(old(self)@, decision, final(self)@, r),
    {
        if self.finished {
            return StepOutcome { submit: None, announce: false, usage_hint: false, finished: true };
        }
        match self.pending.pop_front() {
            None => StepOutcome { submit: None, announce: false, usage_hint: false, finished: false },
            Some(request) => match decision {
                Some(d) => {
                    assert(self.pending@ =~= old(self).pending@.drop_first());
                    let ghost req = request;
                    let submit = match request.details {
                        ApprovalDetails::Exec { .. } => Submission::ExecApproval {
                            id: request.id,
                            decision: d,
                        },
                        ApprovalDetails::Patch { .. } => Submission::PatchApproval {
                            id: request.id,
                            decision: d,
                        },
                    };
                    assert(submit == answer(req, d));
                    StepOutcome {
                        submit: Some(submit),
                        announce: false,
                        usage_hint: false,
                        finished: false,
                    }
                },
                None => {
                    self.pending.push_front(request);
                    assert(self.pending@ =~= old(self).pending@);
                    StepOutcome {
                        submit: None,
                        announce: false,
                        usage_hint: true,
                        finished: false,
                    }
                },
            },
        }
    }

    /// Handles a line of input: it answers the request at the front of the queue.
    pub fn handle_line(&mut self, line: &str) -> (r: StepOutcome)
        ensures
            resolve_step(old(self)@, line_decision(line@), final(self)@, r),
    {
        if self.finished || self.pending.len() == 0 {
            return StepOutcome {
                submit: None,
                announce: false,
                usage_hint: false,
                finished: self.finished,
            };
        }
        let decision = parse_decision(line);
        self.resolve(decision)
    }

    /// Handles one input of the turn loop.
    pub fn handle(&mut self, session: &mut SessionInfo, input: TurnInput) -> (r: StepOutcome)
        ensures
            match input {
                TurnInput::Cancelled => cancel_step(old(self)@, final(self)@, r) && *final(session)
                    == *old(session),
                TurnInput::Event { event, normalized } => receive_step(
                    old(self)@,
                    *old(session),
                    event,
                    normalized@,
                    final(self)@,
                    *final(session),
                    r,
                ),
                TurnInput::EventStreamClosed => stream_closed_step(old(self)@, final(self)@, r)
                    && *final(session) == *old(session),
                TurnInput::Line { line } => resolve_step(
                    old(self)@,
                    line_decision(line@),
                    final(self)@,
                    r,
                ) && *final(session) == *old(session),
                TurnInput::InputClosed => input_closed_step(old(self)@, final(self)@, r)
                    && *final(session) == *old(session),
            },
    {
        match input {
            TurnInput::Cancelled => self.cancel(),
            TurnInput::Event { event, normalized } => self.receive(session, event, normalized),
            TurnInput::EventStreamClosed => {
                self.finished = true;
                StepOutcome { submit: None, announce: false, usage_hint: false, finished: true }
            },
            TurnInput::Line { line } => self.handle_line(line.as_str()),
            TurnInput::InputClosed => {
                self.input_open = false;
                StepOutcome {
                    submit: None,
                    announce: false,
                    usage_hint: false,
                    finished: self.finished,
                }
            },
        }
    }
}

} // verus!
