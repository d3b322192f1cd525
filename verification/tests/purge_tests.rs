use servicebus_client::purge::{
    drain_outcomes, PurgeState, ReceiveOutcome, PURGE_EMPTY_LIMIT, PURGE_MAX_ITERATIONS,
};

#[test]
fn purge_stops_at_the_iteration_cap() {
    // a queue that never stops producing messages still terminates at
    // the cap with a finite count
    let endless: Vec<ReceiveOutcome> = vec![ReceiveOutcome::Received(5); 150];
    let end = drain_outcomes(&endless);
    assert!(end.done);
    assert_eq!(end.iterations, PURGE_MAX_ITERATIONS);
    assert_eq!(end.removed, 5 * PURGE_MAX_ITERATIONS as u64);
}

#[test]
fn purge_stops_after_three_consecutive_empty_receives() {
    let events = vec![
        ReceiveOutcome::Received(3),
        ReceiveOutcome::TimedOut,
        ReceiveOutcome::TimedOut,
        ReceiveOutcome::TimedOut,
        ReceiveOutcome::Received(9),
    ];
    let end = drain_outcomes(&events);
    assert!(end.done);
    assert_eq!(end.iterations, 4);
    assert_eq!(end.consecutive_empty, PURGE_EMPTY_LIMIT);
    // the trailing batch was never requested
    assert_eq!(end.removed, 3);
}

#[test]
fn a_non_empty_receive_resets_the_empty_streak() {
    let events = vec![
        ReceiveOutcome::TimedOut,
        ReceiveOutcome::TimedOut,
        ReceiveOutcome::Received(1),
        ReceiveOutcome::TimedOut,
        ReceiveOutcome::TimedOut,
        ReceiveOutcome::TimedOut,
    ];
    let end = drain_outcomes(&events);
    assert!(end.done);
    assert_eq!(end.iterations, 6);
    assert_eq!(end.removed, 1);
}

#[test]
fn a_receive_of_zero_messages_counts_as_empty() {
    let events = vec![
        ReceiveOutcome::Received(0),
        ReceiveOutcome::Received(0),
        ReceiveOutcome::Received(0),
    ];
    let end = drain_outcomes(&events);
    assert!(end.done);
    assert_eq!(end.iterations, 3);
    assert_eq!(end.removed, 0);
}

#[test]
fn running_out_of_outcomes_leaves_the_drain_unfinished() {
    let events = vec![ReceiveOutcome::Received(2), ReceiveOutcome::Received(2)];
    let end = drain_outcomes(&events);
    assert!(!end.done);
    assert_eq!(end.iterations, 2);
    assert_eq!(end.removed, 4);
    // stepping by hand continues from there
    let mut state: PurgeState = end;
    state.step(ReceiveOutcome::TimedOut);
    assert_eq!(state.iterations, 3);
    assert_eq!(state.consecutive_empty, 1);
}
