//! Tests of the session state machine and event dispatch.

use geyser_sub::session::LoopOutcome;
use geyser_sub::session::Metadata;
use geyser_sub::session::Protocol;
use geyser_sub::session::RawUpdate;
use geyser_sub::session::SessionCore;
use geyser_sub::session::SessionState;
use geyser_sub::session::StreamEvent;
use geyser_sub::session::UpdateKind;
use geyser_sub::session::block_event_metadata;
use geyser_sub::session::matching_protocols;

fn streaming_core() -> SessionCore {
    let mut core = SessionCore::new();
    core.on_connected();
    core.on_subscribed();
    core.on_streaming();
    core
}

fn account_update(accounts: Vec<&str>) -> RawUpdate {
    RawUpdate {
        kind: UpdateKind::Account,
        slot: 42,
        commitment: Some(0),
        accounts: accounts.into_iter().map(String::from).collect(),
        transaction_index: None,
    }
}

#[test]
fn lifecycle_transitions() {
    let mut core = SessionCore::new();
    assert_eq!(core.state, SessionState::Idle);
    assert!(!core.cancelled);
    core.on_connected();
    assert_eq!(core.state, SessionState::Connected);
    core.on_subscribed();
    assert_eq!(core.state, SessionState::Subscribed);
    core.on_streaming();
    assert_eq!(core.state, SessionState::Streaming);
}

#[test]
fn stop_twice_equals_stop_once() {
    let mut once = streaming_core();
    once.stop();
    let mut twice = streaming_core();
    twice.stop();
    twice.stop();
    assert_eq!(once, twice);
    assert!(twice.cancelled);
    assert_eq!(twice.state, SessionState::Streaming);
}

#[test]
fn stop_from_two_handles_observes_termination() {
    // Two clones of a session share one cancellation flag; stopping
    // through either handle is modeled by applying stop to the shared
    // core, and both observe it set.
    let mut shared = streaming_core();
    let mut handle_a = shared;
    handle_a.stop();
    shared = handle_a;
    let mut handle_b = shared;
    handle_b.stop();
    shared = handle_b;
    assert!(shared.cancelled);
}

#[test]
fn observed_stop_exits_without_delivery() {
    let mut core = streaming_core();
    let update = StreamEvent::Update(account_update(vec!["PGM1"]));
    let outcome = core.step(true, &update);
    assert_eq!(outcome, LoopOutcome::Exited);
    assert_ne!(outcome, LoopOutcome::Deliver);
    assert_eq!(core.state, SessionState::Stopped);
    assert!(core.cancelled);
}

#[test]
fn stopped_flag_exits_even_with_clear_observation() {
    let mut core = streaming_core();
    core.stop();
    let update = StreamEvent::Update(account_update(vec!["PGM1"]));
    let outcome = core.step(false, &update);
    assert_eq!(outcome, LoopOutcome::Exited);
    assert_eq!(core.state, SessionState::Stopped);
}

#[test]
fn clear_flag_delivers_and_continues() {
    let mut core = streaming_core();
    let update = StreamEvent::Update(account_update(vec!["PGM1"]));
    let outcome = core.step(false, &update);
    assert_eq!(outcome, LoopOutcome::Deliver);
    assert_eq!(core.state, SessionState::Streaming);
    let outcome_again = core.step(false, &update);
    assert_eq!(outcome_again, LoopOutcome::Deliver);
}

#[test]
fn transport_error_reports_once_and_terminates() {
    let mut core = streaming_core();
    let outcome = core.step(false, &StreamEvent::Failure);
    assert_eq!(outcome, LoopOutcome::ReportError);
    assert_eq!(core.state, SessionState::Stopped);
}

#[test]
fn closed_stream_terminates_silently() {
    let mut core = streaming_core();
    let outcome = core.step(false, &StreamEvent::Closed);
    assert_eq!(outcome, LoopOutcome::Exited);
    assert_eq!(core.state, SessionState::Stopped);
}

#[test]
fn run_stops_at_flag_observation() {
    let mut core = streaming_core();
    let steps = vec![
        (false, StreamEvent::Update(account_update(vec!["PGM1"]))),
        (false, StreamEvent::Update(account_update(vec!["PGM2"]))),
        (true, StreamEvent::Update(account_update(vec!["PGM3"]))),
        (false, StreamEvent::Update(account_update(vec!["PGM4"]))),
    ];
    let outcomes = core.run(&steps);
    assert_eq!(
        outcomes,
        vec![LoopOutcome::Deliver, LoopOutcome::Deliver, LoopOutcome::Exited]
    );
    assert_eq!(core.state, SessionState::Stopped);
}

#[test]
fn run_after_stop_delivers_nothing() {
    let mut core = streaming_core();
    core.stop();
    let steps = vec![
        (false, StreamEvent::Update(account_update(vec!["PGM1"]))),
        (false, StreamEvent::Update(account_update(vec!["PGM2"]))),
    ];
    let outcomes = core.run(&steps);
    assert_eq!(outcomes, vec![LoopOutcome::Exited]);
    assert_eq!(core.state, SessionState::Stopped);
}

#[test]
fn run_ends_when_remote_closes() {
    let mut core = streaming_core();
    let steps = vec![
        (false, StreamEvent::Update(account_update(vec!["PGM1"]))),
        (false, StreamEvent::Closed),
        (false, StreamEvent::Update(account_update(vec!["PGM2"]))),
    ];
    let outcomes = core.run(&steps);
    assert_eq!(outcomes, vec![LoopOutcome::Deliver, LoopOutcome::Exited]);
    assert_eq!(core.state, SessionState::Stopped);
}

#[test]
fn run_reports_transport_error_once() {
    let mut core = streaming_core();
    let steps = vec![
        (false, StreamEvent::Failure),
        (false, StreamEvent::Failure),
    ];
    let outcomes = core.run(&steps);
    assert_eq!(outcomes, vec![LoopOutcome::ReportError]);
    assert_eq!(core.state, SessionState::Stopped);
}

#[test]
fn matching_protocols_in_order() {
    let update = account_update(vec!["Alpha", "Beta"]);
    let protocols = vec![
        Protocol { program_id: String::from("Beta") },
        Protocol { program_id: String::from("Gamma") },
        Protocol { program_id: String::from("Alpha") },
    ];
    assert_eq!(matching_protocols(&update, &protocols), vec![0, 2]);
}

#[test]
fn unmatched_update_is_dropped() {
    let update = account_update(vec!["Alpha"]);
    let protocols = vec![Protocol { program_id: String::from("Beta") }];
    assert!(matching_protocols(&update, &protocols).is_empty());
    assert!(matching_protocols(&update, &Vec::new()).is_empty());
}

#[test]
fn block_updates_bypass_protocol_matching() {
    let update = RawUpdate {
        kind: UpdateKind::BlockMeta,
        slot: 77,
        commitment: Some(2),
        accounts: Vec::new(),
        transaction_index: Some(5),
    };
    let meta = block_event_metadata(&update);
    assert_eq!(
        meta,
        Metadata {
            category: UpdateKind::BlockMeta,
            transaction_index: Some(5),
            slot: 77,
            protocol_index: None,
        }
    );
}
