use presence_lsp::config::{Config, TimeTracking};
use presence_lsp::presence::{Dispatch, PresenceState, Session};
use presence_lsp::state::{start_epoch, FileState, WorkspaceState};
use std::time::{Duration, Instant, SystemTime, UNIX_EPOCH};

fn epoch_now() -> u64 {
    SystemTime::now().duration_since(UNIX_EPOCH).unwrap().as_secs()
}

fn start_of(state: &PresenceState) -> Instant {
    match state.session.as_ref().expect("session") {
        Session::File(f) => f.start_time,
        Session::Workspace { state, .. } => state.start_time,
    }
}

#[test]
fn start_epoch_saturates() {
    assert_eq!(start_epoch(100, 30), 70);
    assert_eq!(start_epoch(100, 100), 0);
    assert_eq!(start_epoch(5, 10), 0);
}

#[test]
fn fresh_states_start_now() {
    let before = epoch_now();
    let file = FileState::new("a.rs".to_string(), "w".to_string());
    let ws = WorkspaceState::new("w".to_string());
    let after = epoch_now();
    assert_eq!(file.filename, "a.rs");
    assert_eq!(ws.workspace, "w");
    for t in [file.get_start_timestamp(), ws.get_start_timestamp()] {
        assert!(before <= t && t <= after, "{} not in {}..={}", t, before, after);
    }
}

#[test]
fn same_workspace_keeps_the_start() {
    let t1 = Instant::now();
    let t2 = t1 + Duration::from_secs(5);
    let mut state = PresenceState::new();
    state.track(TimeTracking::Workspace, "a.rs".to_string(), "proj".to_string(), t1);
    state.track(TimeTracking::Workspace, "b.rs".to_string(), "proj".to_string(), t2);
    assert_eq!(start_of(&state), t1);
    assert_eq!(state.session.as_ref().unwrap().filename(), "b.rs");
}

#[test]
fn other_workspace_restarts_later() {
    let t1 = Instant::now();
    let t2 = t1 + Duration::from_secs(5);
    let mut state = PresenceState::new();
    state.track(TimeTracking::Workspace, "a.rs".to_string(), "one".to_string(), t1);
    state.track(TimeTracking::Workspace, "a.rs".to_string(), "two".to_string(), t2);
    assert_eq!(start_of(&state), t2);
    assert!(start_of(&state) > t1);
    assert_eq!(state.session.as_ref().unwrap().workspace(), "two");
}

#[test]
fn per_file_every_event_restarts() {
    let t1 = Instant::now();
    let t2 = t1 + Duration::from_secs(5);
    let mut state = PresenceState::new();
    state.track(TimeTracking::File, "a.rs".to_string(), "w".to_string(), t1);
    assert_eq!(start_of(&state), t1);
    state.track(TimeTracking::File, "a.rs".to_string(), "w".to_string(), t2);
    assert_eq!(start_of(&state), t2);
}

#[test]
fn workspace_events_through_uris_keep_the_start() {
    let mut config = Config::default();
    config.time_tracking = Some(TimeTracking::Workspace);
    let mut state = PresenceState::new();
    let first = state.on_file_event(&config, "file:///p/a.rs", Some("p".to_string()), true);
    let s1 = start_of(&state);
    let second = state.on_file_event(&config, "file:///p/b.rs", Some("p".to_string()), true);
    assert_eq!(start_of(&state), s1);
    match (first, second) {
        (Dispatch::Submit(p1), Dispatch::Submit(p2)) => {
            assert_eq!(p2.details, "Editing: b.rs");
            assert!(p1.start.unwrap() <= p2.start.unwrap() + 1);
            assert!(p2.start.unwrap() <= p1.start.unwrap() + 1);
        }
        _ => panic!("expected two submissions"),
    }
}

#[test]
fn not_ready_skips_submission() {
    let config = Config::default();
    let mut state = PresenceState::new();
    let r = state.on_file_event(&config, "file:///home/u/demo/main.rs", Some("demo".to_string()), false);
    assert!(matches!(r, Dispatch::Skip));
    assert_eq!(state.session.as_ref().unwrap().filename(), "main.rs");
}

#[test]
fn event_without_file_is_ignored() {
    let config = Config::default();
    let mut state = PresenceState::new();
    let r = state.on_file_event(&config, "mailto:someone@example.com", None, true);
    assert!(matches!(r, Dispatch::Ignore));
    assert!(state.session.is_none());
    assert!(state.on_ready(&config).is_none());
}

#[test]
fn unresolved_workspace_gets_placeholder() {
    let config = Config::default();
    let mut state = PresenceState::new();
    match state.on_file_event(&config, "file:///x.rs", None, true) {
        Dispatch::Submit(p) => assert_eq!(p.state, "in unknown workspace"),
        _ => panic!("expected a submission"),
    }
}

#[test]
fn opening_lib_rs_in_demo_end_to_end() {
    let config = Config::default();
    let mut state = PresenceState::new();
    let before = epoch_now();
    state.track(config.get_time_tracking(), "src/lib.rs".to_string(), "demo".to_string(), Instant::now());
    let payload = state.on_ready(&config).expect("payload");
    let after = epoch_now();
    assert_eq!(payload.details, "Editing: src/lib.rs");
    assert_eq!(payload.state, "in demo");
    let start = payload.start.expect("start");
    assert!(before <= start && start <= after);
}

#[test]
fn ready_after_event_resubmits_the_session() {
    let config = Config::default();
    let mut state = PresenceState::new();
    let uri = "file:///home/u/demo/src/lib.rs";
    let r = state.on_file_event(&config, uri, Some("demo".to_string()), false);
    assert!(matches!(r, Dispatch::Skip));
    let payload = state.on_ready(&config).expect("payload");
    assert_eq!(payload.details, "Editing: lib.rs");
    assert_eq!(payload.state, "in demo");
    assert_eq!(payload.assets.unwrap().small_image.as_deref(), Some("rust"));
}
