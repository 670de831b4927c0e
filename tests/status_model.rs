use mc_server_status::server::{ping_result, status_of_result, ProbeTask, Server};
use mc_server_status::status::{ServerEvent, ServerPingError, ServerStatus};

#[test]
fn status_labels() {
    assert_eq!(ServerStatus::Unknown.label(), "Unknown");
    assert_eq!(ServerStatus::Online.label(), "Online");
    assert_eq!(ServerStatus::Offline.label(), "Offline");
    assert_eq!(ServerStatus::Pinging.label(), "Pinging");
    assert_eq!(
        ServerStatus::Error(ServerPingError::DnsResolveError).label(),
        "DNS Resolve Error"
    );
    assert_eq!(
        ServerStatus::Error(ServerPingError::ConnectionError).label(),
        "Connection Error"
    );
}

#[test]
fn terminal_statuses() {
    assert!(ServerStatus::Online.is_terminal());
    assert!(ServerStatus::Offline.is_terminal());
    assert!(ServerStatus::Error(ServerPingError::ConnectionError).is_terminal());
    assert!(!ServerStatus::Pinging.is_terminal());
    assert!(!ServerStatus::Unknown.is_terminal());
}

#[test]
fn new_server_has_no_probe_in_flight() {
    let s = Server::new(7, "test".to_string(), "localhost".to_string(), 25565);
    assert_eq!(s.id(), 7);
    assert_eq!(s.name, "test");
    assert_eq!(s.ip, "localhost");
    assert_eq!(s.port, 25565);
    assert!(!s.is_pinging());
}

#[test]
fn in_flight_flag_is_claimed_once() {
    let mut s = Server::new(1, "a".to_string(), "127.0.0.1".to_string(), 80);
    assert!(s.try_begin_probe());
    assert!(s.is_pinging());
    assert!(!s.try_begin_probe());
    assert!(s.is_pinging());
    s.end_probe();
    assert!(!s.is_pinging());
    assert!(s.try_begin_probe());
}

#[test]
fn probe_task_copies_address() {
    let s = Server::new(3, "b".to_string(), "example.org".to_string(), 1234);
    let t = s.probe_task();
    assert_eq!(t, ProbeTask { id: 3, ip: "example.org".to_string(), port: 1234 });
}

#[test]
fn unresolved_address_is_an_error() {
    let r = ping_result(4, false, false);
    assert!(matches!(r, Err(ServerPingError::DnsResolveError)));
    assert_eq!(
        status_of_result(&r),
        ServerStatus::Error(ServerPingError::DnsResolveError)
    );
}

#[test]
fn failed_connection_is_offline() {
    let r = ping_result(4, true, false);
    let p = r.as_ref().ok().unwrap();
    assert_eq!(p.id, 4);
    assert_eq!(p.status, ServerStatus::Offline);
    assert!(p.info.is_none());
    assert_eq!(status_of_result(&r), ServerStatus::Offline);
}

#[test]
fn connection_is_online() {
    let r = ping_result(9, true, true);
    assert_eq!(status_of_result(&r), ServerStatus::Online);
}

#[test]
fn probe_events_are_pinging_then_terminal() {
    let t = ProbeTask { id: 5, ip: "h".to_string(), port: 1 };
    assert_eq!(
        t.started_event(),
        ServerEvent::PingStatus { id: 5, status: ServerStatus::Pinging }
    );
    assert_eq!(
        t.finished_event(true, true),
        ServerEvent::PingStatus { id: 5, status: ServerStatus::Online }
    );
    assert_eq!(
        t.finished_event(true, false),
        ServerEvent::PingStatus { id: 5, status: ServerStatus::Offline }
    );
    assert_eq!(
        t.finished_event(false, true),
        ServerEvent::PingStatus {
            id: 5,
            status: ServerStatus::Error(ServerPingError::DnsResolveError)
        }
    );
}
