use presence_bot::applier::{ApplierAction, ApplierEvent};
use presence_bot::commands::CommandDefinition;
use presence_bot::guard::StartupGuard;
use presence_bot::lifecycle::ConnectionLifecycle;
use presence_bot::presence::PresenceValue;
use presence_bot::producer::{ProducerAction, ProducerEvent};
use presence_bot::rotation::Rotation;

fn value(text: &str) -> PresenceValue {
    PresenceValue::new(text.to_string())
}

fn rotation() -> Rotation {
    Rotation::new(vec![value("with fire"), value("chess"), value("dead")], 120).unwrap()
}

#[test]
fn fresh_guard_is_not_started() {
    let guard = StartupGuard::new();
    assert!(!guard.is_started());
}

#[test]
fn try_start_grants_once() {
    let mut guard = StartupGuard::new();
    assert!(guard.try_start());
    assert!(guard.is_started());
    assert!(!guard.try_start());
    assert!(guard.is_started());
}

#[test]
fn try_start_true_exactly_once_over_many_calls() {
    let mut guard = StartupGuard::new();
    let mut granted: usize = 0;
    let mut call: usize = 0;
    while call < 1000 {
        if guard.try_start() {
            granted += 1;
            assert_eq!(call, 0);
        }
        call += 1;
    }
    assert_eq!(granted, 1);
}

#[test]
fn single_ready_signal_starts_the_pipeline() {
    let mut lifecycle = ConnectionLifecycle::new(rotation());
    assert!(!lifecycle.is_started());
    let plan = lifecycle.on_ready();
    assert!(lifecycle.is_started());
    assert!(plan.pipeline.is_some());
}

#[test]
fn repeated_ready_signals_start_one_pipeline() {
    let mut lifecycle = ConnectionLifecycle::new(rotation());
    let mut pipelines: usize = 0;
    let mut signal: usize = 0;
    while signal < 25 {
        let plan = lifecycle.on_ready();
        if plan.pipeline.is_some() {
            pipelines += 1;
            assert_eq!(signal, 0);
        }
        signal += 1;
    }
    assert_eq!(pipelines, 1);
    assert!(lifecycle.is_started());
}

#[test]
fn every_ready_signal_registers_the_commands() {
    let mut lifecycle = ConnectionLifecycle::new(rotation());
    let expected = vec![CommandDefinition {
        name: "ping".to_string(),
        description: "A ping command".to_string(),
    }];
    assert_eq!(lifecycle.on_ready().commands, expected);
    assert_eq!(lifecycle.on_ready().commands, expected);
    assert_eq!(lifecycle.on_ready().commands, expected);
}

#[test]
fn started_pipeline_is_wired_and_idle() {
    let mut lifecycle = ConnectionLifecycle::new(rotation());
    let mut pipeline = lifecycle.on_ready().pipeline.unwrap();
    assert!(!pipeline.channel.is_occupied());
    assert!(!pipeline.channel.is_closed());
    assert!(!pipeline.producer.is_stopped());
    assert_eq!(pipeline.producer.candidate_count(), 3);
    assert!(!pipeline.applier.is_finished());
    assert_eq!(
        pipeline.producer.advance_with(ProducerEvent::Tick, 1),
        ProducerAction::Send(value("chess"))
    );
    assert_eq!(
        pipeline.producer.advance_with(ProducerEvent::Accepted, 0),
        ProducerAction::Sleep(120)
    );
    assert_eq!(pipeline.applier.advance(ApplierEvent::Started), ApplierAction::Receive);
}
