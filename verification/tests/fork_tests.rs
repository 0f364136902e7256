use shadow_core::fork::{Fork, ForkError, ForkPhase, ForkSession};

#[test]
fn replay_flag_defaults_to_false() {
    assert!(!Fork { all_txs: None }.replay_all_transactions());
    assert!(!Fork { all_txs: Some(false) }.replay_all_transactions());
    assert!(Fork { all_txs: Some(true) }.replay_all_transactions());
}

#[test]
fn session_without_replay_starts_listening_at_the_head() {
    let s = ForkSession::start(String::from("http://localhost:8545"), false);
    assert_eq!(s.phase, ForkPhase::Listening);
    assert_eq!(s.blocks_processed, 0);
    assert!(!s.replay_all_transactions);
    assert_eq!(s.http_rpc_url, "http://localhost:8545");
}

#[test]
fn session_with_replay_starts_replaying() {
    let s = ForkSession::start(String::from("http://localhost:8545"), true);
    assert_eq!(s.phase, ForkPhase::Replaying);
}

#[test]
fn replay_schedule_is_complete_and_in_order() {
    assert_eq!(ForkSession::replay_schedule(5, 9), vec![5, 6, 7, 8, 9]);
    assert_eq!(ForkSession::replay_schedule(0, 0), vec![0]);
    assert_eq!(ForkSession::replay_schedule(17_000_000, 17_000_002), vec![
        17_000_000,
        17_000_001,
        17_000_002,
    ]);
}

#[test]
fn finished_replay_hands_over_to_listening() {
    let mut s = ForkSession::start(String::from("u"), true);
    s.on_replay_complete();
    assert_eq!(s.phase, ForkPhase::Listening);
}

#[test]
fn failed_replay_terminates_with_replay_error() {
    let mut s = ForkSession::start(String::from("u"), true);
    let e = s.on_replay_failure();
    assert_eq!(e, ForkError::ReplayError);
    assert_eq!(s.phase, ForkPhase::Terminated);
}

#[test]
fn blocks_are_counted_while_listening() {
    let mut s = ForkSession::start(String::from("u"), false);
    s.on_block();
    s.on_block();
    s.on_block();
    assert_eq!(s.blocks_processed, 3);
    assert_eq!(s.phase, ForkPhase::Listening);
}

#[test]
fn provider_error_terminates_the_session_cleanly() {
    let mut s = ForkSession::start(String::from("u"), false);
    s.on_block();
    let e = s.on_provider_error();
    assert_eq!(e, ForkError::ProviderError);
    assert_eq!(s.phase, ForkPhase::Terminated);
}
