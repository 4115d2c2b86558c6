//! Command lines of the native probes.
//!
//! Ping and route tracing are done by the operating system's own utilities.
//! Which program is started, and with which arguments, depends on the
//! platform convention only; it is a table, looked up here.

use vstd::prelude::*;
use vstd::utf8::{decode_utf8, valid_utf8};

verus! {

/// The two command-line conventions for the native utilities.
#[derive(Clone, Copy, Debug, PartialEq, Eq, Structural)]
pub enum Platform {
    /// `ping -n`, and `tracert` reached through the command shell.
    Windows,
    /// `ping -c` and `traceroute`.
    Posix,
}

/// A native diagnostic utility.
#[derive(Clone, Copy, Debug, PartialEq, Eq, Structural)]
pub enum Probe {
    Ping,
    Traceroute,
}

/// A program to start, with its arguments in order.
#[derive(Clone, Debug, PartialEq, Eq)]
pub struct ProbeCommand {
    pub program: String,
    pub args: Vec<String>,
}

/// What a [`ProbeCommand`] says, as text.
pub struct CommandLine {
    pub program: Seq<char>,
    pub args: Seq<Seq<char>>,
}

impl View for ProbeCommand {
    type V = CommandLine;

    open spec fn view(&self) -> CommandLine {
        CommandLine { program: self.program@, args: self.args.deep_view() }
    }
}

/// The table of command lines: what is started to run `probe` against
/// `target` under the convention of `platform`.
///
/// A ping sends four echo requests; the flag that says so is `-n` on
/// Windows and `-c` elsewhere. A route trace is `tracert`, reached through
/// the command shell, on Windows, and `traceroute` with the target as its
/// only argument elsewhere.
pub open spec fn command_line(platform: Platform, probe: Probe, target: Seq<char>) -> CommandLine {
    match (probe, platform) {
        (Probe::Ping, Platform::Windows) => CommandLine {
            program: "ping"@,
            args: seq!["-n"@, "4"@, target],
        },
        (Probe::Ping, Platform::Posix) => CommandLine {
            program: "ping"@,
            args: seq!["-c"@, "4"@, target],
        },
        (Probe::Traceroute, Platform::Windows) => CommandLine {
            program: "cmd"@,
            args: seq!["/C"@, "tracert"@, target],
        },
        (Probe::Traceroute, Platform::Posix) => CommandLine {
            program: "traceroute"@,
            args: seq![target],
        },
    }
}

/// Builds a command from a program name, the arguments in front of the
/// target, and the target.
fn command(program: &str, options: &[&str], target: &str) -> (cmd: ProbeCommand)
    ensures
        cmd@.program == program@,
        cmd@.args == Seq::new(options@.len(), |i: int| options@[i]@).push(target@),
{
    let mut args: Vec<String> = Vec::new();
    let mut i: usize = 0;
    while i < options.len()
        invariant
            i <= options@.len(),
            args@.len() == i,
            forall|j: int| 0 <= j < i ==> (#[trigger] args@[j])@ == options@[j]@,
        decreases options@.len() - i,
    {
        args.push(options[i].to_owned());
        i += 1;
    }
    args.push(target.to_owned());
    let cmd = ProbeCommand { program: program.to_owned(), args };
    assert(cmd@.args =~= Seq::new(options@.len(), |i: int| options@[i]@).push(target@));
    cmd
}

/// The command that runs `probe` against `target` under `platform`.
pub fn probe_command(platform: Platform, probe: Probe, target: &str) -> (cmd: ProbeCommand)
    ensures
        cmd@ == command_line(platform, probe, target@),
{
    let cmd = match (probe, platform) {
        (Probe::Ping, Platform::Windows) => command("ping", &["-n", "4"], target),
        (Probe::Ping, Platform::Posix) => command("ping", &["-c", "4"], target),
        (Probe::Traceroute, Platform::Windows) => command("cmd", &["/C", "tracert"], target),
        (Probe::Traceroute, Platform::Posix) => command("traceroute", &[], target),
    };
    assert(cmd@.args =~= command_line(platform, probe, target@).args);
    cmd
}

/// The ping command for `target`: four echo requests, with the count flag
/// of the platform.
pub fn ping(platform: Platform, target: &str) -> (cmd: ProbeCommand)
    ensures
        cmd@ == command_line(platform, Probe::Ping, target@),
{
    probe_command(platform, Probe::Ping, target)
}

/// The route-tracing command for `target`: `tracert` through the command
/// shell on Windows, `traceroute` itself elsewhere.
pub fn traceroute(platform: Platform, target: &str) -> (cmd: ProbeCommand)
    ensures
        cmd@ == command_line(platform, Probe::Traceroute, target@),
{
    probe_command(platform, Probe::Traceroute, target)
}

/// The text that `String::from_utf8_lossy` makes of `bytes`: their decoding
/// as UTF-8, with U+FFFD in place of what cannot be decoded.
pub uninterp spec fn lossy_text(bytes: Seq<u8>) -> Seq<char>;

/// `String::from_utf8_lossy`, with its result as an owned string. Bytes
/// that are valid UTF-8 come back as the text they encode. Nothing of this
/// is proved here.
#[verifier::external_body]
fn from_utf8_lossy(bytes: &[u8]) -> (text: String)
    ensures
        text@ == lossy_text(bytes@),
        valid_utf8(bytes@) ==> text@ == decode_utf8(bytes@),
{
    String::from_utf8_lossy(bytes).into_owned()
}

/// The text to print for what a probe wrote to its standard output. The
/// conversion never fails: bytes that are no UTF-8 are replaced, and output
/// that is UTF-8 is printed as it is.
pub fn captured_text(stdout: &[u8]) -> (text: String)
    ensures
        text@ == lossy_text(stdout@),
        valid_utf8(stdout@) ==> text@ == decode_utf8(stdout@),
{
    from_utf8_lossy(stdout)
}

} // verus!
