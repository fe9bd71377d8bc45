//! What happens each time the gateway reports that the connection is ready.

use crate::applier::PresenceApplier;
use crate::channel::{HandoffChannel, HandoffView};
use crate::commands::{command_set, register_all, CommandDefinition};
use crate::guard::{count_granted, latch_history, lemma_exactly_one_start, StartupGuard};
use crate::producer::{ProducerStateView, ValueProducer};
use crate::rotation::Rotation;
use vstd::prelude::*;

verus! {

/// The rotation pipeline, wired and not yet running: a fresh handoff, an idle
/// producer and an applier that has not finished.
#[derive(Debug)]
pub struct Pipeline {
    /// The handoff that joins the two tasks.
    pub channel: HandoffChannel,
    /// The task that generates values.
    pub producer: ValueProducer,
    /// The task that applies them.
    pub applier: PresenceApplier,
}

/// What one ready signal calls for.
#[derive(Debug)]
pub struct ReadyPlan {
    /// The command set to register with the remote service. Registration is
    /// repeated on every signal.
    pub commands: Vec<CommandDefinition>,
    /// The pipeline to start, on the one signal that starts it.
    pub pipeline: Option<Pipeline>,
}

/// The handler of the ready signal. It owns the startup latch, and with it
/// the only startup state that ever changes.
#[derive(Debug)]
pub struct ConnectionLifecycle {
    guard: StartupGuard,
    rotation: Option<Rotation>,
}

impl ConnectionLifecycle {
    #[verifier::type_invariant]
    spec fn well_formed(self) -> bool {
        self.rotation is None ==> self.guard.started()
    }

    /// The startup latch.
    pub closed spec fn guard(&self) -> StartupGuard {
        self.guard
    }

    /// Whether the pipeline has been handed out.
    pub open spec fn started(&self) -> bool {
        self.guard().started()
    }

    /// The candidate texts of the pipeline that is still to be started.
    pub closed spec fn candidates(&self) -> Seq<Seq<char>>
        recommends
            !self.started(),
    {
        self.rotation->Some_0.candidates()
    }

    /// The pause of the pipeline that is still to be started.
    pub closed spec fn interval(&self) -> u64
        recommends
            !self.started(),
    {
        self.rotation->Some_0.interval()
    }

    /// A lifecycle that has seen no ready signal yet and will start a
    /// pipeline over `rotation`.
    pub fn new(rotation: Rotation) -> (lifecycle: Self)
        ensures
            !lifecycle.started(),
            lifecycle.candidates() == rotation.candidates(),
            lifecycle.interval() == rotation.interval(),
    {
        ConnectionLifecycle { guard: StartupGuard::new(), rotation: Some(rotation) }
    }

    /// Whether the pipeline has been handed out.
    pub fn is_started(&self) -> (started: bool)
        ensures
            started == self.started(),
    {
        self.guard.is_started()
    }

    /// Handles one ready signal. The command set is part of every plan. The
    /// pipeline is part of the plan of the first signal only: the latch is
    /// asked on every signal and grants once.
    pub fn on_ready(&mut self) -> (plan: ReadyPlan)
        ensures
            final(self).started(),
            crate::guard::latch_step(old(self).guard(), plan.pipeline is Some, final(self).guard()),
            plan.commands@.map_values(|definition: CommandDefinition| definition@) == command_set(),
            plan.pipeline is Some <==> !old(self).started(),
            plan.pipeline matches Some(pipeline) ==> {
                &&& pipeline.channel@ == HandoffView::fresh()
                &&& pipeline.producer.candidates() == old(self).candidates()
                &&& pipeline.producer.interval() == old(self).interval()
                &&& pipeline.producer.state() == ProducerStateView::Idle
                &&& !pipeline.applier.finished()
            },
    {
        proof {
            use_type_invariant(&*self);
        }
        let commands = register_all();
        let first = self.guard.try_start();
        let mut rotation: Option<Rotation> = None;
        if first {
            std::mem::swap(&mut self.rotation, &mut rotation);
        }
        let pipeline = match rotation {
            Some(rotation) => Some(
                Pipeline {
                    channel: HandoffChannel::new(),
                    producer: ValueProducer::new(rotation),
                    applier: PresenceApplier::new(),
                },
            ),
            None => None,
        };
        ReadyPlan { commands, pipeline }
    }
}

/// Idempotent bootstrap: over any history of one or more ready signals on a
/// lifecycle that has started nothing yet, the first signal's plan carries
/// the pipeline and no later plan does, so exactly one pipeline is started.
pub proof fn lemma_single_pipeline(lifecycles: Seq<ConnectionLifecycle>, with_pipeline: Seq<bool>)
    requires
        latch_history(lifecycles.map_values(|l: ConnectionLifecycle| l.guard()), with_pipeline),
        !lifecycles[0].started(),
        with_pipeline.len() >= 1,
    ensures
        with_pipeline[0],
        forall|i: int| 1 <= i < with_pipeline.len() ==> !#[trigger] with_pipeline[i],
        count_granted(with_pipeline) == 1,
{
    lemma_exactly_one_start(lifecycles.map_values(|l: ConnectionLifecycle| l.guard()), with_pipeline);
}

} // verus!
