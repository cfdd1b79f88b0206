use hostprobe::bus::{EventBus, RecvOutcome};
use hostprobe::directory::HostRecord;
use hostprobe::heartbeat::{heartbeat_tick, HEARTBEAT_ROUNDS};
use hostprobe::message::Severity;
use hostprobe::prober::{run_probe, HostOutcome, ProbeFault, BAD_CREDENTIALS_CODE};

fn host(address: &str, port: &str, username: &str, credential: &str) -> HostRecord {
    HostRecord::new(
        address.to_string(),
        port.to_string(),
        username.to_string(),
        credential.to_string(),
    )
}

/// Drain everything currently readable, as (severity, text) pairs.
fn drain(bus: &EventBus, sub: &mut hostprobe::bus::Subscription) -> Vec<(Option<Severity>, String)> {
    let mut out = Vec::new();
    loop {
        match sub.recv(bus) {
            RecvOutcome::Message(m) => out.push((m.severity, m.text)),
            RecvOutcome::Lagged(_) => continue,
            _ => break,
        }
    }
    out
}

#[test]
fn all_success_publishes_two_messages_per_host_in_order() {
    let hosts = vec![
        host("10.0.0.1", "22", "alice", "pw1"),
        host("10.0.0.2", "2222", "bob", "pw2"),
        host("10.0.0.3", "22", "carol", "pw3"),
    ];
    let outcomes = vec![HostOutcome::Authenticated; 3];
    let mut bus = EventBus::new(64);
    let mut sub = bus.subscribe();
    let r = run_probe(&hosts, &outcomes, &mut bus);
    assert!(r.is_ok());
    let got = drain(&bus, &mut sub);
    assert_eq!(got.len(), 6);
    let expected_infos = [
        "attempting connection to 10.0.0.1:22 as alice",
        "attempting connection to 10.0.0.2:2222 as bob",
        "attempting connection to 10.0.0.3:22 as carol",
    ];
    for i in 0..3 {
        assert_eq!(got[2 * i].0, Some(Severity::Info));
        assert_eq!(got[2 * i].1, expected_infos[i]);
        assert_eq!(got[2 * i + 1].0, Some(Severity::Success));
        assert_eq!(got[2 * i + 1].1, "connected successfully");
    }
}

#[test]
fn timeout_is_recoverable_and_run_proceeds() {
    let hosts = vec![host("203.0.113.1", "9999", "root", "pw"), host("10.0.0.9", "22", "op", "pw")];
    let outcomes = vec![HostOutcome::TimedOut, HostOutcome::Authenticated];
    let mut bus = EventBus::new(64);
    let mut sub = bus.subscribe();
    let r = run_probe(&hosts, &outcomes, &mut bus);
    assert!(r.is_ok());
    let got = drain(&bus, &mut sub);
    assert_eq!(got.len(), 4);
    assert_eq!(got[0].0, Some(Severity::Info));
    assert_eq!(got[0].1, "attempting connection to 203.0.113.1:9999 as root");
    assert_eq!(got[1].0, Some(Severity::Error));
    assert!(got[1].1.contains("Timeout after 3s"));
    assert_eq!(got[2].1, "attempting connection to 10.0.0.9:22 as op");
    assert_eq!(got[3].1, "connected successfully");
}

#[test]
fn bad_credentials_scenario() {
    let hosts = vec![host("10.0.0.5", "22", "root", "wrong")];
    let outcomes = vec![HostOutcome::Rejected(BAD_CREDENTIALS_CODE)];
    let mut bus = EventBus::new(64);
    let mut sub = bus.subscribe();
    let r = run_probe(&hosts, &outcomes, &mut bus);
    assert!(r.is_ok());
    let got = drain(&bus, &mut sub);
    assert_eq!(got.len(), 2);
    assert_eq!(got[0].0, Some(Severity::Info));
    assert_eq!(got[0].1, "attempting connection to 10.0.0.5:22 as root");
    assert_eq!(got[1].0, Some(Severity::Error));
    assert!(got[1].1.contains("bad credentials"));
}

#[test]
fn other_rejection_codes_report_unknown_error() {
    let hosts = vec![host("10.0.0.5", "22", "root", "pw")];
    let outcomes = vec![HostOutcome::Rejected(-5)];
    let mut bus = EventBus::new(64);
    let mut sub = bus.subscribe();
    let r = run_probe(&hosts, &outcomes, &mut bus);
    assert!(r.is_ok());
    let got = drain(&bus, &mut sub);
    assert_eq!(got.len(), 2);
    assert_eq!(got[1].0, Some(Severity::Error));
    assert!(got[1].1.contains("unknown error"));
}

#[test]
fn unauthenticated_session_reports_failure_and_continues() {
    let hosts = vec![host("10.0.0.5", "22", "root", "pw")];
    let outcomes = vec![HostOutcome::NotAuthenticated];
    let mut bus = EventBus::new(64);
    let mut sub = bus.subscribe();
    let r = run_probe(&hosts, &outcomes, &mut bus);
    assert!(r.is_ok());
    let got = drain(&bus, &mut sub);
    assert_eq!(got.len(), 2);
    assert_eq!(got[1].0, Some(Severity::Error));
    assert_eq!(got[1].1, "failed to connect");
}

#[test]
fn connect_fault_aborts_the_whole_run() {
    let hosts = vec![host("10.0.0.1", "22", "a", "p"), host("10.0.0.2", "22", "b", "p")];
    let outcomes = vec![HostOutcome::ConnectFault, HostOutcome::Authenticated];
    let mut bus = EventBus::new(64);
    let mut sub = bus.subscribe();
    let r = run_probe(&hosts, &outcomes, &mut bus);
    assert_eq!(r, Err(ProbeFault::Transport));
    let got = drain(&bus, &mut sub);
    // only the first host's announcement; nothing for the second host
    assert_eq!(got.len(), 1);
    assert_eq!(got[0].1, "attempting connection to 10.0.0.1:22 as a");
}

#[test]
fn handshake_and_session_faults_are_distinguished() {
    let hosts = vec![host("10.0.0.1", "22", "a", "p")];
    let mut bus = EventBus::new(64);
    assert_eq!(
        run_probe(&hosts, &vec![HostOutcome::HandshakeFault], &mut bus),
        Err(ProbeFault::Handshake)
    );
    assert_eq!(
        run_probe(&hosts, &vec![HostOutcome::AuthFault], &mut bus),
        Err(ProbeFault::Session)
    );
}

#[test]
fn late_subscriber_misses_earlier_hosts() {
    let outcomes = vec![HostOutcome::Authenticated];
    let mut bus = EventBus::new(64);
    // first host probed before anyone subscribes
    let r = run_probe(&vec![host("10.0.0.1", "22", "a", "p")], &outcomes, &mut bus);
    assert!(r.is_ok());
    let mut sub = bus.subscribe();
    let r = run_probe(&vec![host("10.0.0.2", "22", "b", "p")], &outcomes, &mut bus);
    assert!(r.is_ok());
    let got = drain(&bus, &mut sub);
    assert_eq!(got.len(), 2);
    assert_eq!(got[0].1, "attempting connection to 10.0.0.2:22 as b");
    assert_eq!(got[1].1, "connected successfully");
}

#[test]
fn timestamps_have_millisecond_shape() {
    let hosts = vec![host("10.0.0.1", "22", "a", "p")];
    let outcomes = vec![HostOutcome::Authenticated];
    let mut bus = EventBus::new(64);
    let mut sub = bus.subscribe();
    run_probe(&hosts, &outcomes, &mut bus).unwrap();
    loop {
        match sub.recv(&bus) {
            RecvOutcome::Message(m) => {
                assert_eq!(m.timestamp.len(), 12);
                assert_eq!(&m.timestamp[2..3], ":");
                assert_eq!(&m.timestamp[5..6], ":");
                assert_eq!(&m.timestamp[8..9], ".");
            }
            _ => break,
        }
    }
}

#[test]
fn loaded_directory_drives_a_full_run() {
    let text = "[host.alpha]\n\
                ip = \"10.0.0.5\"\n\
                port = \"22\"\n\
                user = \"root\"\n\
                pass = \"wrong\"\n";
    let hosts = hostprobe::directory::parse_hosts(text).unwrap();
    let outcomes = vec![HostOutcome::Rejected(BAD_CREDENTIALS_CODE)];
    let mut bus = EventBus::new(16);
    let mut sub = bus.subscribe();
    run_probe(&hosts, &outcomes, &mut bus).unwrap();
    let got = drain(&bus, &mut sub);
    assert_eq!(got.len(), 2);
    assert_eq!(got[0].1, "attempting connection to 10.0.0.5:22 as root");
    assert_eq!(got[1].1, "bad credentials");
}

#[test]
fn heartbeat_publishes_fixed_message_each_round() {
    let mut bus = EventBus::new(64);
    let mut sub = bus.subscribe();
    for _ in 0..HEARTBEAT_ROUNDS {
        heartbeat_tick(&mut bus);
    }
    let mut count = 0;
    loop {
        match sub.recv(&bus) {
            RecvOutcome::Message(m) => {
                assert_eq!(m.severity, Some(Severity::Info));
                assert_eq!(m.text, "Trying to connect to host");
                count += 1;
            }
            _ => break,
        }
    }
    assert_eq!(count, 5);
}
