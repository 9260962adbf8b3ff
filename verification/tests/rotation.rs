use uog::endpoints::{EndpointError, Endpoints};
use uog::restart::{RestartDelay, RestartWindow};
use uog::split::split_by;
use uog::supervisor::Supervisor;

const SEC: u64 = 1_000_000_000;

#[test]
fn split_keeps_empty_pieces() {
    assert_eq!(split_by("a,b,c", ','), vec!["a", "b", "c"]);
    assert_eq!(split_by("", ','), vec![""]);
    assert_eq!(split_by("a,,b,", ','), vec!["a", "", "b", ""]);
    assert_eq!(split_by("héllo,wörld", ','), vec!["héllo", "wörld"]);
}

#[test]
fn one_secret_serves_all_servers() {
    let e = Endpoints::parse("https://a:443,https://b:443,https://c:443", "test").unwrap();
    assert_eq!(e.server_count(), 3);
    assert_eq!(e.secret_count(), 1);
    assert_eq!(e.target(0), ("https://a:443".to_string(), "test".to_string()));
    assert_eq!(e.target(1), ("https://b:443".to_string(), "test".to_string()));
    assert_eq!(e.target(2), ("https://c:443".to_string(), "test".to_string()));
    assert_eq!(e.target(3), ("https://a:443".to_string(), "test".to_string()));
}

#[test]
fn secrets_pair_with_servers() {
    let e = Endpoints::parse("s1,s2", "k1,k2").unwrap();
    assert_eq!(e.target(0), ("s1".to_string(), "k1".to_string()));
    assert_eq!(e.target(1), ("s2".to_string(), "k2".to_string()));
    assert_eq!(e.target(5), ("s2".to_string(), "k2".to_string()));
}

#[test]
fn secret_count_mismatch_is_refused() {
    let err = Endpoints::parse("s1,s2,s3", "k1,k2").err().unwrap();
    assert_eq!(err, EndpointError::SecretCountMismatch);
    assert_eq!(
        err.message(),
        "The number of secrets must be 1 or equal to the number of servers."
    );
    assert!(Endpoints::parse("s1", "k1,k2").is_err());
}

#[test]
fn supervisor_takes_servers_in_turn() {
    let mut s = Supervisor::from_config("s1,s2", "k").unwrap();
    let t = s.next_target();
    assert_eq!((t.server.as_str(), t.secret.as_str()), ("s1", "k"));
    let t = s.next_target();
    assert_eq!((t.server.as_str(), t.secret.as_str()), ("s2", "k"));
    let t = s.next_target();
    assert_eq!((t.server.as_str(), t.secret.as_str()), ("s1", "k"));
    assert!(Supervisor::from_config("s1,s2", "a,b,c").is_err());
}

#[test]
fn third_restart_within_three_seconds_pauses() {
    let mut w = RestartWindow::new();
    assert_eq!(w.record(10 * SEC), RestartDelay::Immediate);
    assert_eq!(w.record(11 * SEC), RestartDelay::Immediate);
    assert_eq!(w.record(12 * SEC), RestartDelay::PauseOneSecond);
    assert_eq!(w.len(), 3);
}

#[test]
fn old_restarts_leave_the_window() {
    let mut w = RestartWindow::new();
    assert_eq!(w.record(0), RestartDelay::Immediate);
    assert_eq!(w.record(SEC), RestartDelay::Immediate);
    // Exactly three seconds back still counts; just over does not.
    assert_eq!(w.record(3 * SEC), RestartDelay::PauseOneSecond);
    assert_eq!(w.record(3 * SEC + 1), RestartDelay::PauseOneSecond);
    assert_eq!(w.len(), 3);
    assert_eq!(w.record(10 * SEC), RestartDelay::Immediate);
    assert_eq!(w.len(), 1);
}

#[test]
fn supervisor_counts_restarts() {
    let mut s = Supervisor::from_config("s1", "k").unwrap();
    assert_eq!(s.session_ended(0), RestartDelay::Immediate);
    assert_eq!(s.session_ended(1), RestartDelay::Immediate);
    assert_eq!(s.session_ended(2), RestartDelay::PauseOneSecond);
    assert_eq!(s.session_ended(5 * SEC), RestartDelay::Immediate);
}
