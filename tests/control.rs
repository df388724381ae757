use stylo::daemon::{Action, Daemon, Event, Phase};
use stylo::error::LogError;
use stylo::service::{get_db_path, get_socket_path, parse_command, Command};
use stylo::statement::{age_modifier, delete_statement, insert_statement, pragma_settings, RETENTION_HOURS};
use stylo::decoder::LogFields;

fn args(v: &[&str]) -> Vec<String> {
    v.iter().map(|s| s.to_string()).collect()
}

#[test]
fn daemon_flags_are_recognised() {
    assert!(matches!(parse_command(&args(&["stylo", "-d"])), Command::Daemon));
    assert!(matches!(parse_command(&args(&["stylo", "--daemon"])), Command::Daemon));
    assert!(matches!(parse_command(&args(&["stylo", "-c"])), Command::Compact));
    assert!(matches!(parse_command(&args(&["stylo", "--compact"])), Command::Compact));
    assert!(matches!(parse_command(&args(&["stylo", "-h"])), Command::Help));
    assert!(matches!(parse_command(&args(&["stylo", "--help"])), Command::Help));
}

#[test]
fn three_arguments_are_an_entry() {
    match parse_command(&args(&["stylo", "web", "ERROR", "disk full", "extra"])) {
        Command::Log(a, b, c) => assert_eq!((a.as_str(), b.as_str(), c.as_str()), ("web", "ERROR", "disk full")),
        _ => panic!("expected an entry"),
    }
}

#[test]
fn too_few_arguments_ask_for_usage() {
    assert!(matches!(parse_command(&args(&["stylo"])), Command::Usage));
    assert!(matches!(parse_command(&args(&["stylo", "web", "ERROR"])), Command::Usage));
    assert!(matches!(parse_command(&args(&[])), Command::Usage));
}

#[test]
fn paths_follow_build_mode() {
    assert_eq!(get_db_path(true, None), "log.db");
    assert_eq!(get_db_path(true, Some("x.db".to_string())), "x.db");
    assert_eq!(get_db_path(false, Some("x.db".to_string())), "x.db");
    assert_eq!(get_db_path(false, None), "/var/log.db");
    assert_eq!(get_socket_path(false, Some("s".to_string())), "s");
    assert_eq!(get_socket_path(true, None), "log.sock");
    assert_eq!(get_socket_path(true, Some("s".to_string())), "s");
    assert_eq!(get_socket_path(false, None), "/run/log.sock");
}

#[test]
fn age_modifier_is_decimal_hours() {
    assert_eq!(age_modifier(24), "-24 hours");
    assert_eq!(age_modifier(0), "-0 hours");
    assert_eq!(age_modifier(4294967295), "-4294967295 hours");
    assert_eq!(RETENTION_HOURS, 24);
}

#[test]
fn statements_bind_their_arguments() {
    let d = delete_statement(24);
    assert_eq!(d.args, vec!["-24 hours".to_string()]);
    let i = insert_statement(&LogFields::new("a", "b", "c"));
    assert_eq!(i.args, vec!["a".to_string(), "b".to_string(), "c".to_string()]);
}

#[test]
fn daemon_binds_then_listens() {
    let mut d = Daemon::new();
    assert!(matches!(d.start(), Action::Bind));
    assert!(matches!(d.step(Event::Bound), Action::Receive));
    assert_eq!(d.phase, Phase::Listening);
}

#[test]
fn daemon_stops_on_bind_failure() {
    let mut d = Daemon::new();
    assert!(matches!(d.step(Event::BindFailed), Action::Exit(LogError::BindFailure)));
    assert_eq!(d.phase, Phase::Stopped);
}

#[test]
fn daemon_survives_failed_write() {
    let mut d = Daemon::new();
    d.step(Event::Bound);
    match d.step(Event::Datagram(b"web ERROR disk full".to_vec())) {
        Action::Insert(f) => assert_eq!(f.message, "disk full"),
        _ => panic!("expected an insert"),
    }
    assert!(matches!(d.step(Event::WriteFailed), Action::Report(LogError::WriteFailed)));
    assert!(matches!(d.step(Event::Reported), Action::Receive));
    match d.step(Event::Datagram(b"next".to_vec())) {
        Action::Insert(f) => {
            assert_eq!((f.source.as_str(), f.severity.as_str(), f.message.as_str()), ("unknown", "RAW", "next"))
        }
        _ => panic!("expected an insert"),
    }
    assert!(matches!(d.step(Event::Written(7)), Action::Receive));
    assert_eq!(d.phase, Phase::Listening);
}

#[test]
fn daemon_survives_transport_error() {
    let mut d = Daemon::new();
    d.step(Event::Bound);
    assert!(matches!(d.step(Event::ReceiveFailed), Action::Report(LogError::TransportError)));
    assert!(matches!(d.step(Event::Reported), Action::Receive));
    assert_eq!(d.phase, Phase::Listening);
}

#[test]
fn store_settings_wait_and_use_wal() {
    let s = pragma_settings();
    assert_eq!(
        s,
        vec![
            ("busy_timeout".to_string(), "5000".to_string()),
            ("journal_mode".to_string(), "WAL".to_string())
        ]
    );
}
