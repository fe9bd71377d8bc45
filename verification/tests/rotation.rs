use presence_bot::applier::{ApplierAction, ApplierEvent, PresenceApplier};
use presence_bot::channel::{HandoffChannel, RecvOutcome, SendOutcome};
use presence_bot::presence::PresenceValue;
use presence_bot::producer::{ProducerAction, ProducerEvent, ValueProducer};
use presence_bot::rotation::Rotation;

fn text(text: &str) -> PresenceValue {
    PresenceValue::new(text.to_string())
}

fn three() -> Rotation {
    Rotation::new(vec![text("a"), text("b"), text("c")], 120).unwrap()
}

#[test]
fn empty_candidate_list_is_refused() {
    assert!(Rotation::new(Vec::new(), 120).is_none());
}

#[test]
fn single_candidate_is_enough() {
    let rotation = Rotation::new(vec![text("only")], 5).unwrap();
    assert_eq!(rotation.len(), 1);
    assert_eq!(rotation.interval_secs(), 5);
    assert_eq!(rotation.select(0), text("only"));
    assert_eq!(rotation.draw(), 0);
    assert_eq!(rotation.pick(), text("only"));
}

#[test]
fn select_returns_the_candidate_at_the_index() {
    let rotation = three();
    assert_eq!(rotation.len(), 3);
    assert_eq!(rotation.interval_secs(), 120);
    assert_eq!(rotation.select(0), text("a"));
    assert_eq!(rotation.select(1), text("b"));
    assert_eq!(rotation.select(2), text("c"));
}

#[test]
fn draws_stay_below_the_candidate_count() {
    let rotation = three();
    let mut round: usize = 0;
    while round < 2000 {
        assert!(rotation.draw() < 3);
        round += 1;
    }
}

#[test]
fn pick_returns_a_candidate() {
    let rotation = three();
    let mut round: usize = 0;
    while round < 500 {
        let picked = rotation.pick();
        assert!(picked == text("a") || picked == text("b") || picked == text("c"));
        round += 1;
    }
}

#[test]
fn selection_frequencies_approach_uniform() {
    let rotation = Rotation::new(vec![text("a"), text("b"), text("c"), text("d")], 120).unwrap();
    let rounds: usize = 40000;
    let mut counts: Vec<usize> = vec![0, 0, 0, 0];
    let mut round: usize = 0;
    while round < rounds {
        counts[rotation.draw()] += 1;
        round += 1;
    }
    for count in counts {
        let frequency: f64 = count as f64 / rounds as f64;
        assert!((frequency - 0.25).abs() < 0.02, "frequency {}", frequency);
    }
}

#[test]
fn producer_cycle_send_then_sleep() {
    let mut producer = ValueProducer::new(three());
    assert_eq!(producer.candidate_count(), 3);
    assert_eq!(producer.advance_with(ProducerEvent::Tick, 2), ProducerAction::Send(text("c")));
    assert_eq!(producer.advance_with(ProducerEvent::Accepted, 0), ProducerAction::Sleep(120));
    assert_eq!(producer.advance_with(ProducerEvent::Tick, 0), ProducerAction::Send(text("a")));
    assert_eq!(producer.advance_with(ProducerEvent::Accepted, 0), ProducerAction::Sleep(120));
    assert!(!producer.is_stopped());
}

#[test]
fn producer_keeps_the_value_while_the_channel_is_full() {
    let mut producer = ValueProducer::new(three());
    assert_eq!(producer.advance_with(ProducerEvent::Tick, 1), ProducerAction::Send(text("b")));
    assert_eq!(
        producer.advance_with(ProducerEvent::Full, 0),
        ProducerAction::SendWhenSpace(text("b"))
    );
    assert_eq!(
        producer.advance_with(ProducerEvent::Full, 2),
        ProducerAction::SendWhenSpace(text("b"))
    );
    assert_eq!(producer.advance_with(ProducerEvent::Tick, 2), ProducerAction::Send(text("b")));
    assert_eq!(producer.advance_with(ProducerEvent::Accepted, 2), ProducerAction::Sleep(120));
}

#[test]
fn producer_stops_when_the_channel_closes() {
    let mut producer = ValueProducer::new(three());
    assert_eq!(producer.advance_with(ProducerEvent::Tick, 0), ProducerAction::Send(text("a")));
    assert_eq!(producer.advance_with(ProducerEvent::Closed, 0), ProducerAction::Stop);
    assert!(producer.is_stopped());
    assert_eq!(producer.advance_with(ProducerEvent::Tick, 0), ProducerAction::Stop);
    assert_eq!(producer.advance_with(ProducerEvent::Accepted, 0), ProducerAction::Stop);
    assert_eq!(producer.advance_with(ProducerEvent::Full, 0), ProducerAction::Stop);
    assert!(producer.is_stopped());
}

#[test]
fn idle_producer_stops_on_closure_and_ignores_stray_reports() {
    let mut producer = ValueProducer::new(three());
    assert_eq!(producer.advance_with(ProducerEvent::Accepted, 0), ProducerAction::Sleep(120));
    assert_eq!(producer.advance_with(ProducerEvent::Full, 0), ProducerAction::Sleep(120));
    assert!(!producer.is_stopped());
    assert_eq!(producer.advance_with(ProducerEvent::Closed, 0), ProducerAction::Stop);
    assert!(producer.is_stopped());
}

#[test]
fn random_advance_sends_a_candidate() {
    let mut round: usize = 0;
    while round < 200 {
        let mut producer = ValueProducer::new(three());
        match producer.advance(ProducerEvent::Tick) {
            ProducerAction::Send(value) => {
                assert!(value == text("a") || value == text("b") || value == text("c"));
            }
            other => panic!("expected a send, got {:?}", other),
        }
        assert_eq!(producer.advance(ProducerEvent::Accepted), ProducerAction::Sleep(120));
        round += 1;
    }
}

#[test]
fn producer_event_reports_the_outcome() {
    assert_eq!(ProducerEvent::from_outcome(&SendOutcome::Accepted), ProducerEvent::Accepted);
    assert_eq!(ProducerEvent::from_outcome(&SendOutcome::Full(text("x"))), ProducerEvent::Full);
    assert_eq!(ProducerEvent::from_outcome(&SendOutcome::Closed(text("x"))), ProducerEvent::Closed);
}

#[test]
fn applier_event_reports_the_outcome() {
    assert_eq!(
        ApplierEvent::from_outcome(RecvOutcome::Value(text("x"))),
        ApplierEvent::Received(text("x"))
    );
    assert_eq!(ApplierEvent::from_outcome(RecvOutcome::Empty), ApplierEvent::Empty);
    assert_eq!(ApplierEvent::from_outcome(RecvOutcome::Closed), ApplierEvent::Closed);
}

#[test]
fn applier_applies_each_value_then_asks_for_the_next() {
    let mut applier = PresenceApplier::new();
    assert_eq!(applier.advance(ApplierEvent::Started), ApplierAction::Receive);
    assert_eq!(
        applier.advance(ApplierEvent::Received(text("a"))),
        ApplierAction::Apply(text("a"))
    );
    assert_eq!(applier.advance(ApplierEvent::Applied), ApplierAction::Receive);
    assert_eq!(applier.advance(ApplierEvent::Empty), ApplierAction::ReceiveWhenReady);
    assert_eq!(
        applier.advance(ApplierEvent::Received(text("b"))),
        ApplierAction::Apply(text("b"))
    );
    assert!(!applier.is_finished());
}

#[test]
fn applier_carries_on_after_a_failed_status() {
    let mut applier = PresenceApplier::new();
    assert_eq!(
        applier.advance(ApplierEvent::Received(text("a"))),
        ApplierAction::Apply(text("a"))
    );
    assert_eq!(applier.advance(ApplierEvent::ApplyFailed), ApplierAction::Receive);
    assert!(!applier.is_finished());
    assert_eq!(
        applier.advance(ApplierEvent::Received(text("b"))),
        ApplierAction::Apply(text("b"))
    );
}

#[test]
fn applier_finishes_on_closure() {
    let mut applier = PresenceApplier::new();
    assert_eq!(applier.advance(ApplierEvent::Closed), ApplierAction::Finish);
    assert!(applier.is_finished());
    assert_eq!(applier.advance(ApplierEvent::Received(text("late"))), ApplierAction::Finish);
    assert_eq!(applier.advance(ApplierEvent::Started), ApplierAction::Finish);
    assert!(applier.is_finished());
}

#[test]
fn pipeline_applies_what_was_produced_in_order() {
    let mut producer = ValueProducer::new(three());
    let mut applier = PresenceApplier::new();
    let mut channel = HandoffChannel::new();
    let indices: Vec<usize> = vec![2, 0, 0, 1];
    let mut applied: Vec<PresenceValue> = Vec::new();
    assert_eq!(applier.advance(ApplierEvent::Started), ApplierAction::Receive);
    for index in indices {
        let sent = match producer.advance_with(ProducerEvent::Tick, index) {
            ProducerAction::Send(value) => value,
            other => panic!("expected a send, got {:?}", other),
        };
        let outcome = channel.offer(sent);
        let event = ProducerEvent::from_outcome(&outcome);
        assert_eq!(producer.advance_with(event, 0), ProducerAction::Sleep(120));
        match applier.advance(ApplierEvent::from_outcome(channel.take())) {
            ApplierAction::Apply(value) => applied.push(value),
            other => panic!("expected an apply, got {:?}", other),
        }
        assert_eq!(applier.advance(ApplierEvent::Applied), ApplierAction::Receive);
    }
    assert_eq!(applied, vec![text("c"), text("a"), text("a"), text("b")]);
    channel.close_sender();
    assert_eq!(
        applier.advance(ApplierEvent::from_outcome(channel.take())),
        ApplierAction::Finish
    );
    assert!(applier.is_finished());
}

#[test]
fn producer_ends_when_the_consumer_is_gone() {
    let mut producer = ValueProducer::new(three());
    let mut channel = HandoffChannel::new();
    channel.close_receiver();
    let sent = match producer.advance_with(ProducerEvent::Tick, 0) {
        ProducerAction::Send(value) => value,
        other => panic!("expected a send, got {:?}", other),
    };
    let outcome = channel.offer(sent);
    assert_eq!(outcome, SendOutcome::Closed(text("a")));
    assert_eq!(
        producer.advance_with(ProducerEvent::from_outcome(&outcome), 0),
        ProducerAction::Stop
    );
    assert!(producer.is_stopped());
}
