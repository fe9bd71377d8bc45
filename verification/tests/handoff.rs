use presence_bot::channel::{HandoffChannel, RecvOutcome, SendOutcome, HANDOFF_CAPACITY};
use presence_bot::presence::PresenceValue;

fn text(text: &str) -> PresenceValue {
    PresenceValue::new(text.to_string())
}

#[test]
fn capacity_is_one() {
    assert_eq!(HANDOFF_CAPACITY, 1);
}

#[test]
fn fresh_channel_is_empty_and_open() {
    let mut channel = HandoffChannel::new();
    assert!(!channel.is_occupied());
    assert!(!channel.is_closed());
    assert_eq!(channel.take(), RecvOutcome::Empty);
}

#[test]
fn second_send_waits_until_drained() {
    let mut channel = HandoffChannel::new();
    assert_eq!(channel.offer(text("first")), SendOutcome::Accepted);
    assert!(channel.is_occupied());
    let mut attempt: usize = 0;
    while attempt < 50 {
        assert_eq!(channel.offer(text("second")), SendOutcome::Full(text("second")));
        assert!(channel.is_occupied());
        attempt += 1;
    }
    assert_eq!(channel.take(), RecvOutcome::Value(text("first")));
    assert!(!channel.is_occupied());
    assert_eq!(channel.offer(text("second")), SendOutcome::Accepted);
    assert_eq!(channel.take(), RecvOutcome::Value(text("second")));
}

#[test]
fn values_arrive_in_the_order_sent() {
    let mut channel = HandoffChannel::new();
    let mut seen: Vec<PresenceValue> = Vec::new();
    for label in ["v1", "v2", "v3"] {
        assert_eq!(channel.offer(text(label)), SendOutcome::Accepted);
        match channel.take() {
            RecvOutcome::Value(value) => seen.push(value),
            other => panic!("nothing delivered: {:?}", other),
        }
    }
    assert_eq!(seen, vec![text("v1"), text("v2"), text("v3")]);
}

#[test]
fn order_holds_when_the_producer_runs_ahead() {
    let mut channel = HandoffChannel::new();
    let mut seen: Vec<PresenceValue> = Vec::new();
    let mut pending: Vec<PresenceValue> = vec![text("v3"), text("v2"), text("v1")];
    let mut current: Option<PresenceValue> = pending.pop();
    while let Some(value) = current.take() {
        match channel.offer(value) {
            SendOutcome::Accepted => current = pending.pop(),
            SendOutcome::Full(back) => {
                current = Some(back);
                match channel.take() {
                    RecvOutcome::Value(value) => seen.push(value),
                    other => panic!("a full channel delivered nothing: {:?}", other),
                }
            }
            SendOutcome::Closed(_) => panic!("the channel is open"),
        }
    }
    match channel.take() {
        RecvOutcome::Value(value) => seen.push(value),
        other => panic!("the last value is missing: {:?}", other),
    }
    assert_eq!(seen, vec![text("v1"), text("v2"), text("v3")]);
    assert_eq!(channel.take(), RecvOutcome::Empty);
}

#[test]
fn duplicates_are_delivered_as_sent() {
    let mut channel = HandoffChannel::new();
    assert_eq!(channel.offer(text("same")), SendOutcome::Accepted);
    assert_eq!(channel.take(), RecvOutcome::Value(text("same")));
    assert_eq!(channel.offer(text("same")), SendOutcome::Accepted);
    assert_eq!(channel.take(), RecvOutcome::Value(text("same")));
}

#[test]
fn offer_after_receiver_closed_is_refused() {
    let mut channel = HandoffChannel::new();
    channel.close_receiver();
    assert!(channel.is_closed());
    assert_eq!(channel.offer(text("late")), SendOutcome::Closed(text("late")));
    assert!(!channel.is_occupied());
}

#[test]
fn closed_wins_over_full() {
    let mut channel = HandoffChannel::new();
    assert_eq!(channel.offer(text("held")), SendOutcome::Accepted);
    channel.close_receiver();
    assert_eq!(channel.offer(text("late")), SendOutcome::Closed(text("late")));
    assert!(channel.is_occupied());
}

#[test]
fn buffered_value_survives_sender_close() {
    let mut channel = HandoffChannel::new();
    assert_eq!(channel.offer(text("last")), SendOutcome::Accepted);
    channel.close_sender();
    assert_eq!(channel.take(), RecvOutcome::Value(text("last")));
    assert_eq!(channel.take(), RecvOutcome::Closed);
    assert_eq!(channel.take(), RecvOutcome::Closed);
}

#[test]
fn empty_closed_channel_reports_closed() {
    let mut channel = HandoffChannel::new();
    channel.close_sender();
    assert_eq!(channel.take(), RecvOutcome::Closed);
    assert_eq!(channel.offer(text("late")), SendOutcome::Closed(text("late")));
}

#[test]
fn presence_value_keeps_its_text() {
    let value = text("with fire");
    assert_eq!(value.as_str(), "with fire");
    assert_eq!(value.clone(), value);
    assert_eq!(value.into_string(), "with fire".to_string());
}
