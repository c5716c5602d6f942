use vstd::prelude::*;

use crate::events::{
    agent_text, captured_item, error_text, is_turn_marker, reasoning_text, ThreadEvent, ThreadItem,
    ThreadItemDetails, Usage,
};

verus! {

/// What a turn's result holds, as plain values.
pub ghost struct TurnRecord {
    pub events: Seq<ThreadEvent>,
    pub final_message: Option<Seq<char>>,
    pub reasoning: Seq<Seq<char>>,
    pub usage: Option<Usage>,
    pub errors: Seq<Seq<char>>,
    pub completed: bool,
}

/// The record of a turn before any event.
pub open spec fn empty_record() -> TurnRecord {
    TurnRecord {
        events: Seq::empty(),
        final_message: None,
        reasoning: Seq::empty(),
        usage: None,
        errors: Seq::empty(),
        completed: false,
    }
}

/// `r` once a content item has been looked at: an assistant message replaces the final
/// message, a reasoning fragment is appended, any other item leaves it as it was.
pub open spec fn capture(r: TurnRecord, item: ThreadItem) -> TurnRecord {
    match item.details {
        ThreadItemDetails::AgentMessage { text } => TurnRecord { final_message: Some(text@), ..r },
        ThreadItemDetails::Reasoning { text } => TurnRecord {
            reasoning: r.reasoning.push(text@),
            ..r
        },
        _ => r,
    }
}

/// `r` once one event has been folded in (its list of events aside).
pub open spec fn absorb(r: TurnRecord, e: ThreadEvent) -> TurnRecord {
    match e {
        ThreadEvent::TurnCompleted { usage } => TurnRecord {
            completed: true,
            usage: Some(usage),
            ..r
        },
        ThreadEvent::TurnFailed { message } => TurnRecord {
            completed: true,
            errors: r.errors.push(message@),
            ..r
        },
        ThreadEvent::Error { message } => TurnRecord { errors: r.errors.push(message@), ..r },
        ThreadEvent::ItemCompleted { item } => capture(r, item),
        ThreadEvent::ItemUpdated { item } => capture(r, item),
        _ => r,
    }
}

/// `r` once every event of `s` has been folded in, in order (its list of events aside).
pub open spec fn absorb_all(r: TurnRecord, s: Seq<ThreadEvent>) -> TurnRecord
    decreases s.len(),
{
    if s.len() == 0 {
        r
    } else {
        absorb(absorb_all(r, s.drop_last()), s.last())
    }
}

/// `r` once the events of `s` have been folded in and recorded.
pub open spec fn fold_events(r: TurnRecord, s: Seq<ThreadEvent>) -> TurnRecord {
    let a = absorb_all(r, s);
    TurnRecord { events: a.events + s, ..a }
}

/// The reasoning fragments that the events of `s` carry, in order.
pub open spec fn reasoning_texts(s: Seq<ThreadEvent>) -> Seq<Seq<char>>
    decreases s.len(),
{
    if s.len() == 0 {
        Seq::empty()
    } else {
        match reasoning_text(s.last()) {
            Some(t) => reasoning_texts(s.drop_last()).push(t),
            None => reasoning_texts(s.drop_last()),
        }
    }
}

/// The last assistant message among the events of `s`, or `init` when there is none.
pub open spec fn latest_agent_text(init: Option<Seq<char>>, s: Seq<ThreadEvent>) -> Option<
    Seq<char>,
>
    decreases s.len(),
{
    if s.len() == 0 {
        init
    } else {
        match agent_text(s.last()) {
            Some(t) => Some(t),
            None => latest_agent_text(init, s.drop_last()),
        }
    }
}

/// The error texts that the events of `s` record, in order.
pub open spec fn error_texts(s: Seq<ThreadEvent>) -> Seq<Seq<char>>
    decreases s.len(),
{
    if s.len() == 0 {
        Seq::empty()
    } else {
        match error_text(s.last()) {
            Some(t) => error_texts(s.drop_last()).push(t),
            None => error_texts(s.drop_last()),
        }
    }
}

/// Whether some event of `s` ends the turn.
pub open spec fn has_marker(s: Seq<ThreadEvent>) -> bool {
    exists|i: int| 0 <= i < s.len() && is_turn_marker(#[trigger] s[i])
}

/// Folding events in marks the record completed exactly when it was already, or when one
/// of the events is a success or failure marker.
pub proof fn lemma_completed_iff_marker(r: TurnRecord, s: Seq<ThreadEvent>)
    ensures
        fold_events(r, s).completed == (r.completed || has_marker(s)),
    decreases s.len(),
{
    if s.len() > 0 {
        let p = s.drop_last();
        lemma_completed_iff_marker(r, p);
        if has_marker(p) {
            let i = choose|i: int| 0 <= i < p.len() && is_turn_marker(#[trigger] p[i]);
            assert(s[i] == p[i]);
        }
        if has_marker(s) && !is_turn_marker(s.last()) {
            let i = choose|i: int| 0 <= i < s.len() && is_turn_marker(#[trigger] s[i]);
            assert(p[i] == s[i]);
        }
    }
}

/// In a run of events with exactly one success or failure marker, at index `k`, a record
/// that was not completed becomes completed right after the marker is folded in, and not
/// before.
pub proof fn lemma_completed_right_after_marker(
    r: TurnRecord,
    s: Seq<ThreadEvent>,
    k: int,
    n: int,
)
    requires
        !r.completed,
        0 <= k < s.len(),
        is_turn_marker(s[k]),
        forall|i: int| 0 <= i < s.len() && i != k ==> !is_turn_marker(#[trigger] s[i]),
        0 <= n <= s.len(),
    ensures
        fold_events(r, s.take(n)).completed == (n > k),
{
    lemma_completed_iff_marker(r, s.take(n));
    if n > k {
        assert(s.take(n)[k] == s[k]);
    }
    if has_marker(s.take(n)) {
        let i = choose|i: int| 0 <= i < n && is_turn_marker(#[trigger] s.take(n)[i]);
        assert(s.take(n)[i] == s[i]);
    }
}

/// Folding events in appends the reasoning fragments, in the order they came, after those
/// already held, and leaves as final message the most recent assistant message; errors
/// are appended in the same way.
pub proof fn lemma_fold_accumulates(r: TurnRecord, s: Seq<ThreadEvent>)
    ensures
        fold_events(r, s).reasoning == r.reasoning + reasoning_texts(s),
        fold_events(r, s).final_message == latest_agent_text(r.final_message, s),
        fold_events(r, s).errors == r.errors + error_texts(s),
        fold_events(r, s).events == r.events + s,
        absorb_all(r, s).events == r.events,
    decreases s.len(),
{
    if s.len() == 0 {
        assert(r.reasoning + reasoning_texts(s) =~= r.reasoning);
        assert(r.errors + error_texts(s) =~= r.errors);
    } else {
        lemma_fold_accumulates(r, s.drop_last());
        let rt = reasoning_texts(s.drop_last());
        let et = error_texts(s.drop_last());
        assert((r.reasoning + rt).push(s.last()->ItemCompleted_item.details->Reasoning_text@)
            =~= r.reasoning + rt.push(s.last()->ItemCompleted_item.details->Reasoning_text@));
        assert((r.reasoning + rt).push(s.last()->ItemUpdated_item.details->Reasoning_text@)
            =~= r.reasoning + rt.push(s.last()->ItemUpdated_item.details->Reasoning_text@));
        assert((r.errors + et).push(s.last()->TurnFailed_message@) =~= r.errors + et.push(
            s.last()->TurnFailed_message@,
        ));
        assert((r.errors + et).push(s.last()->Error_message@) =~= r.errors + et.push(
            s.last()->Error_message@,
        ));
    }
}

/// The result of one turn: the events seen, and what they amount to.
#[derive(Debug)]
pub struct TurnResult {
    events: Vec<ThreadEvent>,
    pub final_message: Option<String>,
    pub reasoning: Vec<String>,
    pub usage: Option<Usage>,
    pub errors: Vec<String>,
    completed: bool,
}

/// The characters of an optional text.
pub open spec fn opt_text(s: Option<String>) -> Option<Seq<char>> {
    match s {
        Some(t) => Some(t@),
        None => None,
    }
}

/// The characters of each text of a list.
pub open spec fn texts(v: Seq<String>) -> Seq<Seq<char>> {
    v.map_values(|s: String| s@)
}

impl View for TurnResult {
    type V = TurnRecord;

    closed spec fn view(&self) -> TurnRecord {
        TurnRecord {
            events: self.events@,
            final_message: opt_text(self.final_message),
            reasoning: texts(self.reasoning@),
            usage: self.usage,
            errors: texts(self.errors@),
            completed: self.completed,
        }
    }
}

impl TurnResult {
    /// A result with no event yet.
    pub fn new() -> (r: TurnResult)
        ensures
            r@ == empty_record(),
    {
        let r = TurnResult {
            events: Vec::new(),
            final_message: None,
            reasoning: Vec::new(),
            usage: None,
            errors: Vec::new(),
            completed: false,
        };
        assert(r@.reasoning =~= Seq::empty());
        assert(r@.errors =~= Seq::empty());
        r
    }

    /// The events folded in so far, in order.
    pub fn events(&self) -> (r: &Vec<ThreadEvent>)
        ensures
            r@ == self@.events,
    {
        &self.events
    }

    /// Whether a success or failure marker has been seen, or the turn was cancelled.
    pub fn turn_complete(&self) -> (r: bool)
        ensures
            r == self@.completed,
    {
        self.completed
    }

    /// Records a text in the list of errors.
    pub fn push_error(&mut self, message: String)
        ensures
            final(self)@ == (TurnRecord { errors: old(self)@.errors.push(message@), ..old(self)@ }),
    {
        self.errors.push(message);
        assert(texts(self.errors@) =~= texts(old(self).errors@).push(message@));
    }

    /// Marks the turn over.
    pub fn mark_completed(&mut self)
        ensures
            final(self)@ == (TurnRecord { completed: true, ..old(self)@ }),
    {
        self.completed = true;
    }

    /// Looks at one content item.
    pub fn capture_item(&mut self, item: &ThreadItem)
        ensures
            final(self)@ == capture(old(self)@, *item),
    {
        match &item.details {
            ThreadItemDetails::AgentMessage { text } => {
                self.final_message = Some(text.clone());
            },
            ThreadItemDetails::Reasoning { text } => {
                self.reasoning.push(text.clone());
                assert(texts(self.reasoning@) =~= texts(old(self).reasoning@).push(text@));
            },
            _ => {},
        }
    }

    /// Folds one event in, without recording it in the list of events.
    pub fn update_from_event(&mut self, event: &ThreadEvent)
        ensures
            final(self)@ == absorb(old(self)@, *event),
    {
        match event {
            ThreadEvent::TurnCompleted { usage } => {
                self.completed = true;
                self.usage = Some(*usage);
            },
            ThreadEvent::TurnFailed { message } => {
                self.completed = true;
                self.push_error(message.clone());
            },
            ThreadEvent::Error { message } => {
                self.push_error(message.clone());
            },
            ThreadEvent::ItemCompleted { item } => self.capture_item(item),
            ThreadEvent::ItemUpdated { item } => self.capture_item(item),
            _ => {},
        }
    }

    /// Folds a run of events in, in order, and records them.
    pub fn append_events(&mut self, events: Vec<ThreadEvent>)
        ensures
            final(self)@ == fold_events(old(self)@, events@),
    {
        let mut events = events;
        let mut i: usize = 0;
        while i < events.len()
            invariant
                0 <= i <= events@.len(),
                self@ == absorb_all(old(self)@, events@.take(i as int)),
            decreases events@.len() - i,
        {
            self.update_from_event(&events[i]);
            assert(events@.take(i as int + 1).drop_last() =~= events@.take(i as int));
            i = i + 1;
        }
        assert(events@.take(i as int) =~= events@);
        let ghost before = self@;
        let ghost s = events@;
        self.events.append(&mut events);
        assert(self@ == (TurnRecord { events: before.events + s, ..before }));
    }
}

impl Default for TurnResult {
    fn default() -> (r: TurnResult)
        ensures
            r@ == empty_record(),
    {
        TurnResult::new()
    }
}

} // verus!
