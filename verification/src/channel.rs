//! The handoff between the producer and the applier: one slot, strict order.

use crate::presence::PresenceValue;
use vstd::prelude::*;

verus! {

/// How many values the handoff holds at most.
pub const HANDOFF_CAPACITY: usize = 1;

/// What a handoff is, for the purposes of its contracts.
pub struct HandoffView {
    /// The value that was accepted and not yet taken, if there is one.
    pub buffered: Option<Seq<char>>,
    /// Whether the producer's end is still open.
    pub sender_open: bool,
    /// Whether the consumer's end is still open.
    pub receiver_open: bool,
}

impl HandoffView {
    /// An empty handoff with both ends open.
    pub open spec fn fresh() -> Self {
        HandoffView { buffered: None, sender_open: true, receiver_open: true }
    }

    /// Either end has been closed: no further value will be accepted.
    pub open spec fn is_closed(self) -> bool {
        !self.sender_open || !self.receiver_open
    }

    /// Both ends are open and the slot is occupied: an offer has to wait.
    pub open spec fn is_full(self) -> bool {
        !self.is_closed() && self.buffered is Some
    }

    /// Both ends are open and the slot is free: an offer goes through.
    pub open spec fn accepts(self) -> bool {
        !self.is_closed() && self.buffered is None
    }

    /// Nothing is buffered and nothing more can arrive.
    pub open spec fn is_exhausted(self) -> bool {
        self.is_closed() && self.buffered is None
    }

    /// The buffered values in the order in which they will be taken.
    pub open spec fn in_flight(self) -> Seq<Seq<char>> {
        match self.buffered {
            Some(value) => seq![value],
            None => Seq::empty(),
        }
    }

    /// The handoff after `value` was offered: it fills the slot if the
    /// handoff accepts, and changes nothing otherwise.
    pub open spec fn after_offer(self, value: Seq<char>) -> Self {
        if self.accepts() {
            HandoffView { buffered: Some(value), ..self }
        } else {
            self
        }
    }

    /// The handoff after a take: the slot is free.
    pub open spec fn after_take(self) -> Self {
        HandoffView { buffered: None, ..self }
    }

    /// The handoff after the producer's end was closed.
    pub open spec fn after_close_sender(self) -> Self {
        HandoffView { sender_open: false, ..self }
    }

    /// The handoff after the consumer's end was closed.
    pub open spec fn after_close_receiver(self) -> Self {
        HandoffView { receiver_open: false, ..self }
    }
}

/// What became of an offered value.
#[derive(Debug, PartialEq, Eq)]
pub enum SendOutcome {
    /// The value is now buffered.
    Accepted,
    /// The slot is occupied; the value comes back so that it can be offered
    /// again once the consumer has taken the buffered one.
    Full(PresenceValue),
    /// An end of the handoff is closed; the value comes back undelivered.
    Closed(PresenceValue),
}

/// What a take found.
#[derive(Debug, PartialEq, Eq)]
pub enum RecvOutcome {
    /// The buffered value, which has left the handoff.
    Value(PresenceValue),
    /// Nothing is buffered yet, and more may come.
    Empty,
    /// Nothing is buffered and nothing more will come.
    Closed,
}

/// A single-slot conduit from one producer to one consumer.
///
/// At most one value is buffered at a time. An offer on an occupied slot is
/// refused without touching the buffered value, which is what holds the
/// producer back until the consumer has caught up.
#[derive(Debug)]
pub struct HandoffChannel {
    slot: Option<PresenceValue>,
    sender_open: bool,
    receiver_open: bool,
}

impl View for HandoffChannel {
    type V = HandoffView;

    closed spec fn view(&self) -> HandoffView {
        HandoffView {
            buffered: match self.slot {
                Some(value) => Some(value@),
                None => None,
            },
            sender_open: self.sender_open,
            receiver_open: self.receiver_open,
        }
    }
}

impl HandoffChannel {
    /// An empty handoff with both ends open.
    pub fn new() -> (channel: Self)
        ensures
            channel@ == HandoffView::fresh(),
    {
        HandoffChannel { slot: None, sender_open: true, receiver_open: true }
    }

    /// Offers `value` to the handoff. The value is buffered if both ends are
    /// open and the slot is free; otherwise the handoff is left as it was and
    /// the value is handed back, marked `Closed` if an end is closed and
    /// `Full` if only the slot stands in the way.
    pub fn offer(&mut self, value: PresenceValue) -> (outcome: SendOutcome)
        ensures
            final(self)@ == old(self)@.after_offer(value@),
            match outcome {
                SendOutcome::Accepted => old(self)@.accepts(),
                SendOutcome::Full(back) => old(self)@.is_full() && back@ == value@,
                SendOutcome::Closed(back) => old(self)@.is_closed() && back@ == value@,
            },
    {
        if !self.sender_open || !self.receiver_open {
            SendOutcome::Closed(value)
        } else if self.slot.is_some() {
            SendOutcome::Full(value)
        } else {
            self.slot = Some(value);
            SendOutcome::Accepted
        }
    }

    /// Takes the buffered value, if there is one, and frees the slot. With
    /// nothing buffered it reports `Closed` if an end is closed and `Empty`
    /// if a value may still come.
    pub fn take(&mut self) -> (outcome: RecvOutcome)
        ensures
            final(self)@ == old(self)@.after_take(),
            match outcome {
                RecvOutcome::Value(value) => old(self)@.buffered == Some(value@),
                RecvOutcome::Empty => old(self)@.accepts(),
                RecvOutcome::Closed => old(self)@.is_exhausted(),
            },
    {
        match self.slot.take() {
            Some(value) => RecvOutcome::Value(value),
            None => {
                if !self.sender_open || !self.receiver_open {
                    RecvOutcome::Closed
                } else {
                    RecvOutcome::Empty
                }
            },
        }
    }

    /// Closes the producer's end. A buffered value can still be taken.
    pub fn close_sender(&mut self)
        ensures
            final(self)@ == old(self)@.after_close_sender(),
    {
        self.sender_open = false;
    }

    /// Closes the consumer's end. From now on every offer is refused.
    pub fn close_receiver(&mut self)
        ensures
            final(self)@ == old(self)@.after_close_receiver(),
    {
        self.receiver_open = false;
    }

    /// Whether a value is buffered.
    pub fn is_occupied(&self) -> (occupied: bool)
        ensures
            occupied == (self@.buffered is Some),
    {
        self.slot.is_some()
    }

    /// Whether either end has been closed.
    pub fn is_closed(&self) -> (closed: bool)
        ensures
            closed == self@.is_closed(),
    {
        !self.sender_open || !self.receiver_open
    }
}

/// One operation on a handoff, by either side.
pub enum HandoffOp {
    /// The producer offers a value.
    Offer(Seq<char>),
    /// The consumer asks for the buffered value.
    Take,
    /// The producer's end is closed.
    CloseSender,
    /// The consumer's end is closed.
    CloseReceiver,
}

impl HandoffView {
    /// The handoff after `op`.
    pub open spec fn after(self, op: HandoffOp) -> Self {
        match op {
            HandoffOp::Offer(value) => self.after_offer(value),
            HandoffOp::Take => self.after_take(),
            HandoffOp::CloseSender => self.after_close_sender(),
            HandoffOp::CloseReceiver => self.after_close_receiver(),
        }
    }

    /// The values that `op` puts into the handoff: the offered value if the
    /// offer goes through, nothing otherwise.
    pub open spec fn taken_in(self, op: HandoffOp) -> Seq<Seq<char>> {
        match op {
            HandoffOp::Offer(value) => if self.accepts() {
                seq![value]
            } else {
                Seq::empty()
            },
            _ => Seq::empty(),
        }
    }

    /// The values that `op` hands to the consumer: the buffered value on a
    /// take, nothing otherwise.
    pub open spec fn handed_out(self, op: HandoffOp) -> Seq<Seq<char>> {
        match op {
            HandoffOp::Take => self.in_flight(),
            _ => Seq::empty(),
        }
    }
}

/// The handoff that results from performing `ops`, in order, on `channel`.
pub open spec fn run_from(channel: HandoffView, ops: Seq<HandoffOp>) -> HandoffView
    decreases ops.len(),
{
    if ops.len() == 0 {
        channel
    } else {
        run_from(channel, ops.drop_last()).after(ops.last())
    }
}

/// The handoff that results from performing `ops`, in order, on a fresh one.
pub open spec fn state_after(ops: Seq<HandoffOp>) -> HandoffView {
    run_from(HandoffView::fresh(), ops)
}

/// The values that the handoff accepted over `ops`, in the order of their
/// acceptance.
pub open spec fn accepted_values(ops: Seq<HandoffOp>) -> Seq<Seq<char>>
    decreases ops.len(),
{
    if ops.len() == 0 {
        Seq::empty()
    } else {
        accepted_values(ops.drop_last()) + state_after(ops.drop_last()).taken_in(ops.last())
    }
}

/// The values that the consumer received over `ops`, in the order of their
/// receipt.
pub open spec fn delivered_values(ops: Seq<HandoffOp>) -> Seq<Seq<char>>
    decreases ops.len(),
{
    if ops.len() == 0 {
        Seq::empty()
    } else {
        delivered_values(ops.drop_last()) + state_after(ops.drop_last()).handed_out(ops.last())
    }
}

/// Conservation: whatever the two sides do, and in whatever interleaving,
/// the accepted values are exactly the delivered ones followed by what is
/// still buffered.
pub proof fn lemma_accepted_is_delivered_then_buffered(ops: Seq<HandoffOp>)
    ensures
        accepted_values(ops) == delivered_values(ops) + state_after(ops).in_flight(),
    decreases ops.len(),
{
    if ops.len() > 0 {
        lemma_accepted_is_delivered_then_buffered(ops.drop_last());
    }
    assert(accepted_values(ops) =~= delivered_values(ops) + state_after(ops).in_flight());
}

/// Delivery in order: the consumer receives the values in the order in which
/// the producer's offers were accepted, none twice, none skipped, and at
/// most one accepted value is waiting at any time.
pub proof fn lemma_fifo_delivery(ops: Seq<HandoffOp>)
    ensures
        delivered_values(ops).len() <= accepted_values(ops).len() <= delivered_values(ops).len()
            + HANDOFF_CAPACITY,
        forall|i: int|
            0 <= i < delivered_values(ops).len() ==> #[trigger] delivered_values(ops)[i]
                == accepted_values(ops)[i],
{
    lemma_accepted_is_delivered_then_buffered(ops);
}

/// Backpressure: while a value is buffered and nobody takes it, every further
/// offer is turned away and leaves the buffered value in place; the take that
/// follows hands out that buffered value, and the next offer after it goes
/// through.
pub proof fn lemma_backpressure(channel: HandoffView, held: Seq<char>, pending: Seq<char>)
    requires
        channel.is_full(),
        channel.buffered == Some(held),
    ensures
        channel.after_offer(pending) == channel,
        channel.taken_in(HandoffOp::Offer(pending)) == Seq::<Seq<char>>::empty(),
        channel.handed_out(HandoffOp::Take) == seq![held],
        channel.after_take().accepts(),
        channel.after_take().after_offer(pending).buffered == Some(pending),
{
}

/// While the handoff does not accept, offers change nothing, however many
/// are made: a buffered value is neither dropped nor overwritten.
pub proof fn lemma_refused_offers_keep_state(channel: HandoffView, ops: Seq<HandoffOp>)
    requires
        !channel.accepts(),
        forall|i: int| 0 <= i < ops.len() ==> #[trigger] ops[i] is Offer,
    ensures
        run_from(channel, ops) == channel,
    decreases ops.len(),
{
    if ops.len() > 0 {
        lemma_refused_offers_keep_state(channel, ops.drop_last());
    }
}

} // verus!
