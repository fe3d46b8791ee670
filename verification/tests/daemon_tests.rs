use wlt_helper::config::{CheckMethod, Config, PingConfig};
use wlt_helper::daemon::{monitor, should_log_in, ClientCommand, ClientRequest, DaemonEvent, Monitor};

#[test]
fn request_bytes() {
    assert_eq!(ClientRequest::Login.to_bytes(), b"LOGIN".to_vec());
    assert_eq!(ClientRequest::Refresh.to_bytes(), b"REFRESH".to_vec());
}

#[test]
fn request_parsing() {
    assert_eq!(ClientRequest::parse(b"LOGIN"), Some(ClientRequest::Login));
    assert_eq!(ClientRequest::parse(b"REFRESH"), Some(ClientRequest::Refresh));
    assert_eq!(ClientRequest::parse(b"login"), None);
    assert_eq!(ClientRequest::parse(b"LOGIN\n"), None);
    assert_eq!(ClientRequest::parse(b""), None);
}

#[test]
fn commands() {
    assert!(ClientCommand::Store.stores_credentials());
    assert!(!ClientCommand::Login.stores_credentials());
    assert!(!ClientCommand::Refresh.stores_credentials());
    assert_eq!(ClientCommand::Store.request(), ClientRequest::Login);
    assert_eq!(ClientCommand::Login.request(), ClientRequest::Login);
    assert_eq!(ClientCommand::Refresh.request(), ClientRequest::Refresh);
}

#[test]
fn daemon_reactions() {
    for check in [CheckMethod::Nm, CheckMethod::Ping] {
        assert!(should_log_in(check, &DaemonEvent::Started));
        assert!(should_log_in(check, &DaemonEvent::Message(b"LOGIN".to_vec())));
        assert!(should_log_in(check, &DaemonEvent::Message(b"REFRESH".to_vec())));
        assert!(!should_log_in(check, &DaemonEvent::Message(b"HELLO".to_vec())));
        assert!(!should_log_in(check, &DaemonEvent::PingResult(true)));
    }
    assert!(should_log_in(CheckMethod::Ping, &DaemonEvent::PingResult(false)));
    assert!(!should_log_in(CheckMethod::Nm, &DaemonEvent::PingResult(false)));
    assert!(should_log_in(CheckMethod::Nm, &DaemonEvent::PrimaryConnectionChanged));
    assert!(!should_log_in(CheckMethod::Ping, &DaemonEvent::PrimaryConnectionChanged));
}

fn config(check: CheckMethod, interval: u32) -> Config {
    Config {
        name: "alice".to_string(),
        login_type: 0,
        exp: 3600,
        check,
        ping: PingConfig { interval, site: "https://example.net/".to_string() },
    }
}

#[test]
fn monitor_choice() {
    assert!(matches!(monitor(&config(CheckMethod::Nm, 0)), Monitor::WatchNetwork));
    assert!(matches!(monitor(&config(CheckMethod::Nm, 60)), Monitor::WatchNetwork));
    assert!(matches!(monitor(&config(CheckMethod::Ping, 0)), Monitor::Off));
    match monitor(&config(CheckMethod::Ping, 60)) {
        Monitor::PingEvery { seconds, site } => {
            assert_eq!(seconds, 60);
            assert_eq!(site, "https://example.net/");
        }
        other => panic!("unexpected {:?}", other),
    }
}
