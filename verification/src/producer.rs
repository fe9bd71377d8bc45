//! The producer's side of the rotation: choose, offer, pause, repeat.

use crate::channel::SendOutcome;
use crate::presence::PresenceValue;
use crate::rotation::Rotation;
use vstd::prelude::*;

verus! {

/// Where the producer stands in its cycle.
#[derive(Debug, PartialEq, Eq)]
pub enum ProducerState {
    /// Between two rotations: waiting for the pause to end.
    Idle,
    /// A value has been chosen and not yet been accepted by the handoff.
    Sending(PresenceValue),
    /// The consumer is gone; nothing more will be produced.
    Stopped,
}

/// What the producer is told.
#[derive(Debug, Clone, Copy, PartialEq, Eq, Structural)]
pub enum ProducerEvent {
    /// The producer was started, or its pause has ended.
    Tick,
    /// The handoff accepted the value that was offered.
    Accepted,
    /// The handoff still holds the previous value.
    Full,
    /// The handoff is closed.
    Closed,
}

/// What the producer asks for next.
#[derive(Debug, PartialEq, Eq)]
pub enum ProducerAction {
    /// Offer this value to the handoff.
    Send(PresenceValue),
    /// Wait until the consumer has freed the slot, then offer this value.
    SendWhenSpace(PresenceValue),
    /// Pause for this many seconds, then report a tick.
    Sleep(u64),
    /// End the task.
    Stop,
}

/// A producer state, with texts in place of values.
pub enum ProducerStateView {
    Idle,
    Sending(Seq<char>),
    Stopped,
}

/// A producer action, with texts in place of values.
pub enum ProducerActionView {
    Send(Seq<char>),
    SendWhenSpace(Seq<char>),
    Sleep(u64),
    Stop,
}

impl View for ProducerState {
    type V = ProducerStateView;

    open spec fn view(&self) -> ProducerStateView {
        match *self {
            ProducerState::Idle => ProducerStateView::Idle,
            ProducerState::Sending(value) => ProducerStateView::Sending(value@),
            ProducerState::Stopped => ProducerStateView::Stopped,
        }
    }
}

impl View for ProducerAction {
    type V = ProducerActionView;

    open spec fn view(&self) -> ProducerActionView {
        match *self {
            ProducerAction::Send(value) => ProducerActionView::Send(value@),
            ProducerAction::SendWhenSpace(value) => ProducerActionView::SendWhenSpace(value@),
            ProducerAction::Sleep(secs) => ProducerActionView::Sleep(secs),
            ProducerAction::Stop => ProducerActionView::Stop,
        }
    }
}

/// The producer's transition. `chosen` is the candidate that the rotation
/// selects should this step begin a new rotation.
///
/// A closed handoff stops the producer from any state, and a stopped producer
/// stays stopped. A tick while idle begins a rotation with the chosen value.
/// While a value is being sent, only its acceptance ends the sending; until
/// then the same value stays pending. Events that do not belong to the
/// current state change nothing.
pub open spec fn producer_next(
    state: ProducerStateView,
    event: ProducerEvent,
    chosen: Seq<char>,
) -> ProducerStateView {
    match (state, event) {
        (ProducerStateView::Stopped, _) => ProducerStateView::Stopped,
        (_, ProducerEvent::Closed) => ProducerStateView::Stopped,
        (ProducerStateView::Idle, ProducerEvent::Tick) => ProducerStateView::Sending(chosen),
        (ProducerStateView::Idle, _) => ProducerStateView::Idle,
        (ProducerStateView::Sending(_), ProducerEvent::Accepted) => ProducerStateView::Idle,
        (ProducerStateView::Sending(value), _) => ProducerStateView::Sending(value),
    }
}

/// What the producer asks for once it has moved to `next` on `event`: to stop
/// when stopped, to pause when idle, and to offer the pending value when
/// sending, after waiting for space if the handoff has just been found full.
pub open spec fn producer_request(
    next: ProducerStateView,
    event: ProducerEvent,
    interval: u64,
) -> ProducerActionView {
    match next {
        ProducerStateView::Stopped => ProducerActionView::Stop,
        ProducerStateView::Idle => ProducerActionView::Sleep(interval),
        ProducerStateView::Sending(value) => if event == ProducerEvent::Full {
            ProducerActionView::SendWhenSpace(value)
        } else {
            ProducerActionView::Send(value)
        },
    }
}

/// The event that reports `outcome` to the producer.
pub open spec fn event_of_outcome(outcome: SendOutcome) -> ProducerEvent {
    match outcome {
        SendOutcome::Accepted => ProducerEvent::Accepted,
        SendOutcome::Full(_) => ProducerEvent::Full,
        SendOutcome::Closed(_) => ProducerEvent::Closed,
    }
}

impl ProducerEvent {
    /// Reports what the handoff made of an offer.
    pub fn from_outcome(outcome: &SendOutcome) -> (event: ProducerEvent)
        ensures
            event == event_of_outcome(*outcome),
    {
        match outcome {
            SendOutcome::Accepted => ProducerEvent::Accepted,
            SendOutcome::Full(_) => ProducerEvent::Full,
            SendOutcome::Closed(_) => ProducerEvent::Closed,
        }
    }
}

/// The periodic generator of status values, as a state machine. The caller
/// performs each action it returns and reports the result as the next event.
#[derive(Debug)]
pub struct ValueProducer {
    rotation: Rotation,
    state: ProducerState,
}

impl ValueProducer {
    /// The candidate texts that the producer rotates through.
    pub closed spec fn candidates(&self) -> Seq<Seq<char>> {
        self.rotation.candidates()
    }

    /// The pause between two rotations, in seconds.
    pub closed spec fn interval(&self) -> u64 {
        self.rotation.interval()
    }

    /// Where the producer stands.
    pub closed spec fn state(&self) -> ProducerStateView {
        self.state@
    }

    /// An idle producer over `rotation`. Its first tick begins the first
    /// rotation.
    pub fn new(rotation: Rotation) -> (producer: Self)
        ensures
            producer.candidates() == rotation.candidates(),
            producer.interval() == rotation.interval(),
            producer.state() == ProducerStateView::Idle,
    {
        ValueProducer { rotation, state: ProducerState::Idle }
    }

    /// How many candidates the producer rotates through; never zero.
    pub fn candidate_count(&self) -> (count: usize)
        ensures
            count == self.candidates().len(),
            count > 0,
    {
        self.rotation.len()
    }

    /// Whether the producer has stopped for good.
    pub fn is_stopped(&self) -> (stopped: bool)
        ensures
            stopped == (self.state() == ProducerStateView::Stopped),
    {
        match self.state {
            ProducerState::Stopped => true,
            _ => false,
        }
    }

    /// Whether `event` begins a rotation: it does when it is a tick and the
    /// producer is idle. Only then does a step choose a candidate.
    pub fn begins_rotation(&self, event: ProducerEvent) -> (begins: bool)
        ensures
            begins == (self.state() == ProducerStateView::Idle && event == ProducerEvent::Tick),
    {
        match (&self.state, event) {
            (ProducerState::Idle, ProducerEvent::Tick) => true,
            _ => false,
        }
    }

    /// Moves the producer on `event`, with the candidate at `index` as the
    /// value of a rotation that begins now, and returns what to do next. The
    /// index is read only when a rotation begins, and must then be the
    /// position of a candidate.
    pub fn advance_with(&mut self, event: ProducerEvent, index: usize) -> (action: ProducerAction)
        requires
            old(self).state() == ProducerStateView::Idle && event == ProducerEvent::Tick ==> index
                < old(self).candidates().len(),
        ensures
            final(self).candidates() == old(self).candidates(),
            final(self).interval() == old(self).interval(),
            final(self).state() == producer_next(
                old(self).state(),
                event,
                old(self).candidates()[index as int],
            ),
            action@ == producer_request(final(self).state(), event, old(self).interval()),
    {
        let begins = self.begins_rotation(event);
        let ends = match (&self.state, event) {
            (ProducerState::Stopped, _) => false,
            (_, ProducerEvent::Closed) => true,
            _ => false,
        };
        let accepted = match (&self.state, event) {
            (ProducerState::Sending(_), ProducerEvent::Accepted) => true,
            _ => false,
        };
        if ends {
            self.state = ProducerState::Stopped;
        } else if begins {
            let chosen = self.rotation.select(index);
            self.state = ProducerState::Sending(chosen);
        } else if accepted {
            self.state = ProducerState::Idle;
        }
        match &self.state {
            ProducerState::Stopped => ProducerAction::Stop,
            ProducerState::Idle => ProducerAction::Sleep(self.rotation.interval_secs()),
            ProducerState::Sending(value) => {
                if event == ProducerEvent::Full {
                    ProducerAction::SendWhenSpace(value.clone())
                } else {
                    ProducerAction::Send(value.clone())
                }
            },
        }
    }

    /// Moves the producer on `event` and returns what to do next. A rotation
    /// that begins now takes a candidate chosen at random; whichever it is,
    /// the step is the one that [`ValueProducer::advance_with`] makes for its
    /// position.
    pub fn advance(&mut self, event: ProducerEvent) -> (action: ProducerAction)
        ensures
            final(self).candidates() == old(self).candidates(),
            final(self).interval() == old(self).interval(),
            exists|index: int|
                0 <= index < old(self).candidates().len() && final(self).state() == producer_next(
                    old(self).state(),
                    event,
                    #[trigger] old(self).candidates()[index],
                ),
            action@ == producer_request(final(self).state(), event, old(self).interval()),
    {
        let count: usize = self.candidate_count();
        let index: usize = if self.begins_rotation(event) {
            self.rotation.draw()
        } else {
            count - 1
        };
        self.advance_with(event, index)
    }
}

} // verus!
