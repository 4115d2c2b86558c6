use netpulse::probe::{captured_text, ping, traceroute, Platform, ProbeCommand};

fn command(program: &str, args: &[&str]) -> ProbeCommand {
    ProbeCommand {
        program: program.to_string(),
        args: args.iter().map(|a| a.to_string()).collect(),
    }
}

#[test]
fn posix_ping_sends_four_probes_with_c() {
    assert_eq!(
        ping(Platform::Posix, "10.0.0.1"),
        command("ping", &["-c", "4", "10.0.0.1"])
    );
}

#[test]
fn windows_ping_sends_four_probes_with_n() {
    assert_eq!(
        ping(Platform::Windows, "example.com"),
        command("ping", &["-n", "4", "example.com"])
    );
}

#[test]
fn posix_traceroute_has_the_target_as_sole_argument() {
    assert_eq!(
        traceroute(Platform::Posix, "example.com"),
        command("traceroute", &["example.com"])
    );
}

#[test]
fn windows_traceroute_goes_through_the_shell() {
    assert_eq!(
        traceroute(Platform::Windows, "example.com"),
        command("cmd", &["/C", "tracert", "example.com"])
    );
}

#[test]
fn target_is_passed_as_it_is() {
    let odd = "-c 9 ; rm";
    assert_eq!(ping(Platform::Posix, odd).args[2], odd);
    assert_eq!(traceroute(Platform::Posix, "").args, vec![String::new()]);
}

#[test]
fn utf8_output_is_printed_verbatim() {
    let stdout = "PING 10.0.0.1: 56 data bytes\nd\u{e9}lai d\u{e9}pass\u{e9}\n";
    assert_eq!(captured_text(stdout.as_bytes()), stdout);
    assert_eq!(captured_text(b""), "");
}

#[test]
fn bytes_that_are_no_utf8_are_replaced() {
    assert_eq!(captured_text(b"ok \xff\xfe end"), "ok \u{fffd}\u{fffd} end");
    assert_eq!(captured_text(b"cut \xe2\x82"), "cut \u{fffd}");
}
