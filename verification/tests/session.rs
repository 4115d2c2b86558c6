use netpulse::dns::{DnsQuery, InvalidDnsServer};
use netpulse::literal::IpLiteral;
use netpulse::probe::{ping, traceroute, Platform, Probe};
use netpulse::session::{plan_actions, report, Action, Invocation, Outcome, Session};

fn invocation(target: &str, dns: Option<&str>, ping: bool, traceroute: bool) -> Invocation {
    Invocation {
        target: target.to_string(),
        dns_server: dns.map(|s| s.to_string()),
        ping,
        traceroute,
    }
}

fn lookup(target: &str, server: [u8; 4]) -> Action {
    Action::Resolve(DnsQuery {
        target: target.to_string(),
        server: IpLiteral::V4(server),
        port: 53,
    })
}

#[test]
fn name_server_defaults_to_the_public_resolver() {
    assert_eq!(
        invocation("example.com", None, true, false).dns_server_address(),
        "8.8.8.8"
    );
    assert_eq!(
        invocation("example.com", Some("1.1.1.1"), false, false).dns_server_address(),
        "1.1.1.1"
    );
}

#[test]
fn default_name_server_is_never_asked() {
    let inv = invocation("example.com", None, true, true);
    for action in plan_actions(&inv, Platform::Posix).unwrap() {
        assert!(matches!(action, Action::Run(_, _)));
    }
}

#[test]
fn nothing_enabled_plans_nothing() {
    let inv = invocation("example.com", None, false, false);
    assert_eq!(plan_actions(&inv, Platform::Posix), Ok(vec![]));
    let session = Session::start(&inv, Platform::Posix).unwrap();
    assert!(session.is_finished());
    assert_eq!(session.next_action(), None);
}

#[test]
fn everything_enabled_plans_lookup_ping_traceroute() {
    let inv = invocation("example.com", Some("8.8.8.8"), true, true);
    assert_eq!(
        plan_actions(&inv, Platform::Posix),
        Ok(vec![
            lookup("example.com", [8, 8, 8, 8]),
            Action::Run(Probe::Ping, ping(Platform::Posix, "example.com")),
            Action::Run(Probe::Traceroute, traceroute(Platform::Posix, "example.com")),
        ])
    );
}

#[test]
fn plan_follows_the_platform() {
    let inv = invocation("example.com", None, true, true);
    assert_eq!(
        plan_actions(&inv, Platform::Windows),
        Ok(vec![
            Action::Run(Probe::Ping, ping(Platform::Windows, "example.com")),
            Action::Run(Probe::Traceroute, traceroute(Platform::Windows, "example.com")),
        ])
    );
}

#[test]
fn dns_scenario_resolves_against_the_server_on_port_53() {
    let inv = invocation("example.com", Some("8.8.8.8"), false, false);
    let mut session = Session::start(&inv, Platform::Posix).unwrap();
    assert_eq!(session.next_action(), Some(&lookup("example.com", [8, 8, 8, 8])));
    let answer = Outcome::Resolved(vec![
        "93.184.216.34".to_string(),
        "2606:2800:220:1:248:1893:25c8:1946".to_string(),
    ]);
    assert_eq!(
        session.record(&answer),
        vec![
            "Resolved address for example.com: 93.184.216.34".to_string(),
            "Resolved address for example.com: 2606:2800:220:1:248:1893:25c8:1946".to_string(),
        ]
    );
    assert!(session.is_finished());
}

#[test]
fn invalid_dns_server_ends_the_invocation_before_anything_runs() {
    let inv = invocation("example.com", Some("not-an-ip"), true, true);
    let refused = InvalidDnsServer { server: "not-an-ip".to_string() };
    assert_eq!(plan_actions(&inv, Platform::Posix), Err(refused.clone()));
    let error = Session::start(&inv, Platform::Posix).unwrap_err();
    assert_eq!(error, refused);
    assert!(error.message().contains("Invalid DNS server"));
}

#[test]
fn ping_scenario_spawns_ping_and_prints_its_output() {
    let inv = invocation("10.0.0.1", None, true, false);
    let mut session = Session::start(&inv, Platform::Posix).unwrap();
    let action = session.next_action().cloned().unwrap();
    match action {
        Action::Run(Probe::Ping, command) => {
            assert_eq!(command.program, "ping");
            assert_eq!(command.args, vec!["-c", "4", "10.0.0.1"]);
        }
        other => panic!("unexpected action {:?}", other),
    }
    let stdout = "PING 10.0.0.1 (10.0.0.1): 56 data bytes\n\n--- 10.0.0.1 ping statistics ---\n4 packets transmitted, 0 packets received, 100.0% packet loss\n";
    assert_eq!(
        session.record(&Outcome::Captured(stdout.as_bytes().to_vec())),
        vec![stdout.to_string()]
    );
    assert!(session.is_finished());
    assert_eq!(session.next_action(), None);
}

#[test]
fn ping_alone_runs_neither_lookup_nor_traceroute() {
    let inv = invocation("example.com", None, true, false);
    assert_eq!(
        plan_actions(&inv, Platform::Posix),
        Ok(vec![Action::Run(Probe::Ping, ping(Platform::Posix, "example.com"))])
    );
}

#[test]
fn both_probes_run_in_order_even_if_the_first_fails() {
    let inv = invocation("example.com", None, true, true);
    let mut session = Session::start(&inv, Platform::Posix).unwrap();
    assert_eq!(
        session.next_action(),
        Some(&Action::Run(Probe::Ping, ping(Platform::Posix, "example.com")))
    );
    assert_eq!(
        session.record(&Outcome::SpawnFailed("No such file or directory".to_string())),
        vec!["Probe could not be started: No such file or directory".to_string()]
    );
    assert!(!session.is_finished());
    assert_eq!(
        session.next_action(),
        Some(&Action::Run(Probe::Traceroute, traceroute(Platform::Posix, "example.com")))
    );
    assert_eq!(
        session.record(&Outcome::Captured(b"traceroute to example.com\n".to_vec())),
        vec!["traceroute to example.com\n".to_string()]
    );
    assert!(session.is_finished());
}

#[test]
fn failed_lookup_prints_one_line_and_the_probes_still_run() {
    let inv = invocation("example.com", Some("192.0.2.1"), true, false);
    let mut session = Session::start(&inv, Platform::Posix).unwrap();
    assert_eq!(session.next_action(), Some(&lookup("example.com", [192, 0, 2, 1])));
    let lines = session.record(&Outcome::LookupFailed("request timed out".to_string()));
    assert_eq!(lines, vec!["DNS resolution error: request timed out".to_string()]);
    assert_eq!(
        session.next_action(),
        Some(&Action::Run(Probe::Ping, ping(Platform::Posix, "example.com")))
    );
}

#[test]
fn outcome_after_the_last_action_prints_nothing() {
    let inv = invocation("example.com", None, false, false);
    let mut session = Session::start(&inv, Platform::Posix).unwrap();
    assert_eq!(
        session.record(&Outcome::Captured(b"late".to_vec())),
        Vec::<String>::new()
    );
    assert!(session.is_finished());
}

#[test]
fn report_renders_each_kind_of_outcome() {
    assert_eq!(
        report("h", &Outcome::Resolved(vec!["1.2.3.4".to_string()])),
        vec!["Resolved address for h: 1.2.3.4".to_string()]
    );
    assert_eq!(report("h", &Outcome::Resolved(vec![])), Vec::<String>::new());
    assert_eq!(
        report("h", &Outcome::LookupFailed("no record found".to_string())),
        vec!["DNS resolution error: no record found".to_string()]
    );
    assert_eq!(
        report("h", &Outcome::Captured(b"a\xffb".to_vec())),
        vec!["a\u{fffd}b".to_string()]
    );
    assert_eq!(
        report("h", &Outcome::SpawnFailed("permission denied".to_string())),
        vec!["Probe could not be started: permission denied".to_string()]
    );
}
