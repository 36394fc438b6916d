use relayer_psi::{
    extract_auth_code, watcher_step, xoauth2_response, Reconnect, ReconnectAction,
    WatcherEvent, WatcherState, MAX_RETRIES, RETRY_DELAY_MS,
};

/// Runs a reconnect whose attempts connect as `outcomes` says, and returns the
/// outcome with the delay before each attempt.
fn drive(outcomes: &[bool]) -> (ReconnectAction, Vec<u64>) {
    let mut r = Reconnect::new();
    let mut delays = Vec::new();
    loop {
        match r.next_action() {
            ReconnectAction::Attempt(d) => {
                let k = delays.len();
                delays.push(d);
                r.record(outcomes[k]);
            }
            other => return (other, delays),
        }
    }
}

#[test]
fn reconnect_gives_up_after_five_failures() {
    let (outcome, delays) = drive(&[false; 8]);
    assert_eq!(outcome, ReconnectAction::Fatal);
    assert_eq!(delays.len(), 5);
    assert_eq!(MAX_RETRIES, 5);
    assert_eq!(delays, vec![0, 1000, 1000, 1000, 1000]);
}

#[test]
fn reconnect_stops_at_first_success() {
    let (outcome, delays) = drive(&[false, false, true, false, false]);
    assert_eq!(outcome, ReconnectAction::Restored);
    assert_eq!(delays, vec![0, RETRY_DELAY_MS, RETRY_DELAY_MS]);
}

#[test]
fn reconnect_success_on_fifth_attempt() {
    let (outcome, delays) = drive(&[false, false, false, false, true]);
    assert_eq!(outcome, ReconnectAction::Restored);
    assert_eq!(delays.len(), 5);
}

#[test]
fn failed_first_connection_is_fatal_without_retries() {
    assert_eq!(
        watcher_step(WatcherState::Connecting, WatcherEvent::ConnectFailed),
        WatcherState::Failed
    );
}

#[test]
fn watcher_cycle_through_fetch_and_reconnect() {
    let s = watcher_step(WatcherState::Connecting, WatcherEvent::Connected);
    assert_eq!(s, WatcherState::Idling);
    let s = watcher_step(s, WatcherEvent::NewData);
    assert_eq!(s, WatcherState::Fetching);
    let s = watcher_step(s, WatcherEvent::Fetched);
    assert_eq!(s, WatcherState::Idling);
    let s = watcher_step(s, WatcherEvent::UnexpectedIdleEvent);
    assert_eq!(s, WatcherState::Reconnecting);
    let s = watcher_step(s, WatcherEvent::Restored);
    assert_eq!(s, WatcherState::Idling);
    let s = watcher_step(s, WatcherEvent::IoError);
    assert_eq!(s, WatcherState::Reconnecting);
    assert_eq!(
        watcher_step(s, WatcherEvent::RetriesExhausted),
        WatcherState::Failed
    );
}

#[test]
fn xoauth2_response_has_sasl_layout() {
    assert_eq!(
        xoauth2_response("bob@example.com", "tok123"),
        "user=bob@example.com\x01auth=Bearer tok123\x01\x01"
    );
}

#[test]
fn auth_code_is_taken_up_to_the_next_parameter() {
    assert_eq!(
        extract_auth_code("/?code=4/abc-XYZ&scope=mail").as_deref(),
        Some("4/abc-XYZ")
    );
    assert_eq!(
        extract_auth_code("/?state=s1&code=xyz").as_deref(),
        Some("xyz")
    );
}

#[test]
fn auth_code_missing_or_empty() {
    assert_eq!(extract_auth_code("/?state=s1&error=denied"), None);
    assert_eq!(extract_auth_code(""), None);
    assert_eq!(extract_auth_code("/?code=").as_deref(), Some(""));
    assert_eq!(extract_auth_code("/?code=&state=1").as_deref(), Some(""));
}

#[test]
fn auth_code_uses_the_first_key() {
    assert_eq!(
        extract_auth_code("/cb?code=first&code=second").as_deref(),
        Some("first")
    );
}
