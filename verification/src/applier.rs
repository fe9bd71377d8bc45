//! The consumer's side of the rotation: take each value and make it the
//! visible status.

use crate::channel::RecvOutcome;
use crate::presence::PresenceValue;
use vstd::prelude::*;

verus! {

/// What the applier is told.
#[derive(Debug, PartialEq, Eq)]
pub enum ApplierEvent {
    /// The applier was started.
    Started,
    /// The handoff delivered this value.
    Received(PresenceValue),
    /// The handoff holds nothing yet.
    Empty,
    /// The handoff is closed and drained.
    Closed,
    /// The status was set.
    Applied,
    /// Setting the status failed. The value is given up; the next one will be
    /// tried in its turn.
    ApplyFailed,
}

/// What the applier asks for next.
#[derive(Debug, PartialEq, Eq)]
pub enum ApplierAction {
    /// Ask the handoff for the next value.
    Receive,
    /// Wait until the producer has offered a value, then ask for it.
    ReceiveWhenReady,
    /// Record this value, then set it as the visible status.
    Apply(PresenceValue),
    /// End the task.
    Finish,
}

/// An applier event, with texts in place of values.
pub enum ApplierEventView {
    Started,
    Received(Seq<char>),
    Empty,
    Closed,
    Applied,
    ApplyFailed,
}

/// An applier action, with texts in place of values.
pub enum ApplierActionView {
    Receive,
    ReceiveWhenReady,
    Apply(Seq<char>),
    Finish,
}

impl View for ApplierEvent {
    type V = ApplierEventView;

    open spec fn view(&self) -> ApplierEventView {
        match *self {
            ApplierEvent::Started => ApplierEventView::Started,
            ApplierEvent::Received(value) => ApplierEventView::Received(value@),
            ApplierEvent::Empty => ApplierEventView::Empty,
            ApplierEvent::Closed => ApplierEventView::Closed,
            ApplierEvent::Applied => ApplierEventView::Applied,
            ApplierEvent::ApplyFailed => ApplierEventView::ApplyFailed,
        }
    }
}

impl View for ApplierAction {
    type V = ApplierActionView;

    open spec fn view(&self) -> ApplierActionView {
        match *self {
            ApplierAction::Receive => ApplierActionView::Receive,
            ApplierAction::ReceiveWhenReady => ApplierActionView::ReceiveWhenReady,
            ApplierAction::Apply(value) => ApplierActionView::Apply(value@),
            ApplierAction::Finish => ApplierActionView::Finish,
        }
    }
}

/// Whether the applier has finished once it has seen `event`: it finishes
/// when the handoff reports closure, and stays finished.
pub open spec fn applier_next(finished: bool, event: ApplierEventView) -> bool {
    finished || event is Closed
}

/// What the applier asks for on `event`. A finished applier asks only to
/// finish. Otherwise a received value is applied, an empty handoff is waited
/// on, closure ends the task, and everything else (the start, a status that
/// was set, a status that failed) leads to the next receive.
pub open spec fn applier_request(finished: bool, event: ApplierEventView) -> ApplierActionView {
    if finished {
        ApplierActionView::Finish
    } else {
        match event {
            ApplierEventView::Received(value) => ApplierActionView::Apply(value),
            ApplierEventView::Empty => ApplierActionView::ReceiveWhenReady,
            ApplierEventView::Closed => ApplierActionView::Finish,
            ApplierEventView::Started
            | ApplierEventView::Applied
            | ApplierEventView::ApplyFailed => ApplierActionView::Receive,
        }
    }
}

/// The event that reports `outcome` to the applier.
pub open spec fn event_of_outcome(outcome: RecvOutcome) -> ApplierEventView {
    match outcome {
        RecvOutcome::Value(value) => ApplierEventView::Received(value@),
        RecvOutcome::Empty => ApplierEventView::Empty,
        RecvOutcome::Closed => ApplierEventView::Closed,
    }
}

impl ApplierEvent {
    /// Reports what a take on the handoff found.
    pub fn from_outcome(outcome: RecvOutcome) -> (event: ApplierEvent)
        ensures
            event@ == event_of_outcome(outcome),
    {
        match outcome {
            RecvOutcome::Value(value) => ApplierEvent::Received(value),
            RecvOutcome::Empty => ApplierEvent::Empty,
            RecvOutcome::Closed => ApplierEvent::Closed,
        }
    }
}

/// The task that applies each delivered value as the visible status, as a
/// state machine. The caller performs each action it returns and reports the
/// result as the next event.
#[derive(Debug)]
pub struct PresenceApplier {
    finished: bool,
}

impl PresenceApplier {
    /// Whether the applier has finished.
    pub closed spec fn finished(&self) -> bool {
        self.finished
    }

    /// An applier that has not finished.
    pub fn new() -> (applier: Self)
        ensures
            !applier.finished(),
    {
        PresenceApplier { finished: false }
    }

    /// Whether the applier has finished.
    pub fn is_finished(&self) -> (finished: bool)
        ensures
            finished == self.finished(),
    {
        self.finished
    }

    /// Moves the applier on `event` and returns what to do next.
    pub fn advance(&mut self, event: ApplierEvent) -> (action: ApplierAction)
        ensures
            final(self).finished() == applier_next(old(self).finished(), event@),
            action@ == applier_request(old(self).finished(), event@),
    {
        if self.finished {
            return ApplierAction::Finish;
        }
        match event {
            ApplierEvent::Received(value) => ApplierAction::Apply(value),
            ApplierEvent::Empty => ApplierAction::ReceiveWhenReady,
            ApplierEvent::Closed => {
                self.finished = true;
                ApplierAction::Finish
            },
            ApplierEvent::Started | ApplierEvent::Applied | ApplierEvent::ApplyFailed => {
                ApplierAction::Receive
            },
        }
    }
}

/// The values that an applier which begins in state `finished` asks to have
/// applied over `events`, in order.
pub open spec fn applied_over(finished: bool, events: Seq<ApplierEventView>) -> Seq<Seq<char>>
    decreases events.len(),
{
    if events.len() == 0 {
        Seq::empty()
    } else {
        let rest = applied_over(applier_next(finished, events[0]), events.subrange(1, events.len() as int));
        match applier_request(finished, events[0]) {
            ApplierActionView::Apply(value) => seq![value] + rest,
            _ => rest,
        }
    }
}

/// The values that `events` deliver before the first report of closure, in
/// order.
pub open spec fn received_before_close(events: Seq<ApplierEventView>) -> Seq<Seq<char>>
    decreases events.len(),
{
    if events.len() == 0 {
        Seq::empty()
    } else {
        match events[0] {
            ApplierEventView::Closed => Seq::empty(),
            ApplierEventView::Received(value) => seq![value] + received_before_close(
                events.subrange(1, events.len() as int),
            ),
            _ => received_before_close(events.subrange(1, events.len() as int)),
        }
    }
}

/// A finished applier applies nothing more.
pub proof fn lemma_finished_applies_nothing(events: Seq<ApplierEventView>)
    ensures
        applied_over(true, events) == Seq::<Seq<char>>::empty(),
    decreases events.len(),
{
    if events.len() > 0 {
        lemma_finished_applies_nothing(events.subrange(1, events.len() as int));
    }
}

/// Each value that reaches a running applier before the handoff closes is
/// applied exactly once, in the order of arrival, whether or not earlier
/// values could be set; nothing else is applied.
pub proof fn lemma_applies_each_once_in_order(events: Seq<ApplierEventView>)
    ensures
        applied_over(false, events) == received_before_close(events),
    decreases events.len(),
{
    if events.len() > 0 {
        let rest = events.subrange(1, events.len() as int);
        if events[0] is Closed {
            lemma_finished_applies_nothing(rest);
        } else {
            lemma_applies_each_once_in_order(rest);
        }
    }
}

} // verus!
