//! The startup latch: lets a recurring trigger run its body exactly once.

use vstd::prelude::*;

verus! {

/// A one-shot latch. It starts out "not started", moves to "started" on the
/// first call of [`StartupGuard::try_start`], and never goes back.
///
/// `try_start` takes the latch by exclusive reference, so the read and the
/// write are one indivisible step: callers that share a latch between tasks
/// keep it behind a lock, and any interleaving of their calls is one sequence
/// of calls.
#[derive(Debug)]
pub struct StartupGuard {
    started: bool,
}

impl StartupGuard {
    /// Whether the latch has been taken.
    pub closed spec fn started(&self) -> bool {
        self.started
    }

    /// A latch that nobody has taken yet.
    pub fn new() -> (guard: Self)
        ensures
            !guard.started(),
    {
        StartupGuard { started: false }
    }

    /// Takes the latch if it is free. Returns `true` to the caller that took
    /// it and `false` to every later caller; the latch is taken afterwards in
    /// either case.
    pub fn try_start(&mut self) -> (first: bool)
        ensures
            first == !old(self).started(),
            final(self).started(),
            latch_step(*old(self), first, *final(self)),
        no_unwind
    {
        let first = !self.started;
        self.started = true;
        first
    }

    /// Reads the latch without taking it.
    pub fn is_started(&self) -> (started: bool)
        ensures
            started == self.started(),
    {
        self.started
    }
}

/// One call of [`StartupGuard::try_start`], as a relation between the latch
/// before, the answer, and the latch after.
pub open spec fn latch_step(before: StartupGuard, first: bool, after: StartupGuard) -> bool {
    first == !before.started() && after.started()
}

/// A history of calls on one latch: `answers[i]` is what the call between
/// `latches[i]` and `latches[i + 1]` returned.
pub open spec fn latch_history(latches: Seq<StartupGuard>, answers: Seq<bool>) -> bool {
    &&& latches.len() == answers.len() + 1
    &&& forall|i: int|
        0 <= i < answers.len() ==> latch_step(
            #[trigger] latches[i],
            answers[i],
            latches[i + 1],
        )
}

/// How many entries of `answers` are `true`.
pub open spec fn count_granted(answers: Seq<bool>) -> nat
    decreases answers.len(),
{
    if answers.len() == 0 {
        0
    } else {
        count_granted(answers.drop_last()) + if answers.last() {
            1nat
        } else {
            0nat
        }
    }
}

/// Once a latch is taken, no later call in its history is answered `true`.
pub proof fn lemma_taken_latch_refuses(latches: Seq<StartupGuard>, answers: Seq<bool>)
    requires
        latch_history(latches, answers),
        latches[0].started(),
    ensures
        forall|i: int| 0 <= i < answers.len() ==> !#[trigger] answers[i],
        count_granted(answers) == 0,
    decreases answers.len(),
{
    if answers.len() > 0 {
        let shorter = answers.drop_last();
        let fewer = latches.drop_last();
        assert(latch_history(fewer, shorter)) by {
            assert forall|i: int| 0 <= i < shorter.len() implies latch_step(
                #[trigger] fewer[i],
                shorter[i],
                fewer[i + 1],
            ) by {
                assert(latch_step(latches[i], answers[i], latches[i + 1]));
            }
        }
        lemma_taken_latch_refuses(fewer, shorter);
        let last = answers.len() - 1;
        assert(latches[last].started()) by {
            if last > 0 {
                assert(latch_step(latches[last - 1], answers[last - 1], latches[last]));
            }
        }
        assert(latch_step(latches[last], answers[last], latches[last + 1]));
        assert forall|i: int| 0 <= i < answers.len() implies !#[trigger] answers[i] by {
            if i < last {
                assert(shorter[i] == answers[i]);
            }
        }
    }
}

/// Idempotent bootstrap: over any history of one or more calls on a latch
/// that starts out free, the first call is answered `true`, every later call
/// is answered `false`, and so exactly one call is answered `true`.
pub proof fn lemma_exactly_one_start(latches: Seq<StartupGuard>, answers: Seq<bool>)
    requires
        latch_history(latches, answers),
        !latches[0].started(),
        answers.len() >= 1,
    ensures
        answers[0],
        forall|i: int| 1 <= i < answers.len() ==> !#[trigger] answers[i],
        count_granted(answers) == 1,
{
    assert(latch_step(latches[0], answers[0], latches[1]));
    let later_latches = latches.subrange(1, latches.len() as int);
    let later_answers = answers.subrange(1, answers.len() as int);
    assert(latch_history(later_latches, later_answers)) by {
        assert forall|i: int| 0 <= i < later_answers.len() implies latch_step(
            #[trigger] later_latches[i],
            later_answers[i],
            later_latches[i + 1],
        ) by {
            assert(latch_step(latches[i + 1], answers[i + 1], latches[i + 2]));
        }
    }
    lemma_taken_latch_refuses(later_latches, later_answers);
    assert forall|i: int| 1 <= i < answers.len() implies !#[trigger] answers[i] by {
        assert(later_answers[i - 1] == answers[i]);
    }
    lemma_count_granted_split(answers);
}

/// The count over a non-empty sequence is the first entry's share plus the
/// count over the rest.
proof fn lemma_count_granted_split(answers: Seq<bool>)
    requires
        answers.len() >= 1,
    ensures
        count_granted(answers) == count_granted(answers.subrange(1, answers.len() as int)) + if answers[0] {
            1nat
        } else {
            0nat
        },
    decreases answers.len(),
{
    let rest = answers.subrange(1, answers.len() as int);
    if answers.len() == 1 {
        assert(answers.drop_last().len() == 0);
        assert(rest.len() == 0);
        assert(count_granted(answers.drop_last()) == 0);
    } else {
        lemma_count_granted_split(answers.drop_last());
        assert(answers.drop_last().subrange(1, answers.len() - 1) =~= rest.drop_last());
        assert(rest.last() == answers.last());
        assert(answers.drop_last()[0] == answers[0]);
    }
}

} // verus!
