//! One invocation of the tool, from its parameters to its last line of
//! output.
//!
//! The enabled actions run one after the other, in a fixed order: the DNS
//! lookup, the ping, the route trace. A [`Session`] hands them out one at a
//! time. The caller carries each one out and hands back what came of it; the
//! session answers with the lines to print and moves to the next action,
//! whatever the outcome was.

use crate::dns::{
    lookup_error_line, lookup_error_report, resolve_dns, resolved_lines, resolved_report,
    DnsQuery, InvalidDnsServer, DEFAULT_DNS_SERVER,
};
use crate::literal::{ip_literal, Address};
use crate::probe::{
    captured_text, command_line, lossy_text, ping, traceroute, CommandLine, Platform, Probe,
    ProbeCommand,
};
use vstd::prelude::*;

verus! {

/// The parameters of one invocation.
#[derive(Clone, Debug, PartialEq, Eq)]
pub struct Invocation {
    /// The host name or address under diagnosis.
    pub target: String,
    /// The name server to ask, where the user named one.
    pub dns_server: Option<String>,
    /// Whether to ping the target.
    pub ping: bool,
    /// Whether to trace the route to the target.
    pub traceroute: bool,
}

/// The parameters of one invocation, as text.
pub struct Parameters {
    pub target: Seq<char>,
    pub dns_server: Option<Seq<char>>,
    pub ping: bool,
    pub traceroute: bool,
}

impl View for Invocation {
    type V = Parameters;

    open spec fn view(&self) -> Parameters {
        Parameters {
            target: self.target@,
            dns_server: match self.dns_server {
                Some(server) => Some(server@),
                None => None,
            },
            ping: self.ping,
            traceroute: self.traceroute,
        }
    }
}

impl Invocation {
    /// The address of the name server: the one that the user named, else
    /// the default. The default is never asked: a lookup is made only
    /// where the user named a server.
    pub fn dns_server_address(&self) -> (address: &str)
        ensures
            address@ == match self@.dns_server {
                Some(server) => server,
                None => DEFAULT_DNS_SERVER@,
            },
    {
        match &self.dns_server {
            Some(server) => server.as_str(),
            None => DEFAULT_DNS_SERVER,
        }
    }
}

/// Something for the caller to carry out.
#[derive(Clone, Debug, PartialEq, Eq)]
pub enum Action {
    /// Look the target up at the query's name server.
    Resolve(DnsQuery),
    /// Run a native utility and capture its standard output.
    Run(Probe, ProbeCommand),
}

/// An action, as a mathematical value.
pub enum Step {
    Resolve { target: Seq<char>, server: Address, port: u16 },
    Run { probe: Probe, command: CommandLine },
}

impl View for Action {
    type V = Step;

    open spec fn view(&self) -> Step {
        match self {
            Action::Resolve(query) => Step::Resolve {
                target: query.target@,
                server: query.server@,
                port: query.port,
            },
            Action::Run(probe, command) => Step::Run { probe: *probe, command: command@ },
        }
    }
}

/// What came of an action.
#[derive(Clone, Debug, PartialEq, Eq)]
pub enum Outcome {
    /// The lookup was answered with these addresses, each in its usual
    /// textual form.
    Resolved(Vec<String>),
    /// The lookup failed, for this reason.
    LookupFailed(String),
    /// The utility ran and wrote this to its standard output. Its exit
    /// status does not matter.
    Captured(Vec<u8>),
    /// The utility could not be started, for this reason.
    SpawnFailed(String),
}

/// An outcome, as a mathematical value.
pub enum Event {
    Resolved(Seq<Seq<char>>),
    LookupFailed(Seq<char>),
    Captured(Seq<u8>),
    SpawnFailed(Seq<char>),
}

impl View for Outcome {
    type V = Event;

    open spec fn view(&self) -> Event {
        match self {
            Outcome::Resolved(addresses) => Event::Resolved(addresses.deep_view()),
            Outcome::LookupFailed(error) => Event::LookupFailed(error@),
            Outcome::Captured(stdout) => Event::Captured(stdout@),
            Outcome::SpawnFailed(error) => Event::SpawnFailed(error@),
        }
    }
}

/// Whether the parameters are refused: a name server was named, and it is
/// no IP address.
pub open spec fn refused(parameters: Parameters) -> bool {
    parameters.dns_server matches Some(server) && ip_literal(server) is None
}

/// The lookup that the parameters ask for, if any.
pub open spec fn lookup_steps(parameters: Parameters) -> Seq<Step> {
    match parameters.dns_server {
        Some(server) => match ip_literal(server) {
            Some(address) => seq![
                Step::Resolve { target: parameters.target, server: address, port: 53 },
            ],
            None => Seq::empty(),
        },
        None => Seq::empty(),
    }
}

/// The ping that the parameters ask for, if any.
pub open spec fn ping_steps(parameters: Parameters, platform: Platform) -> Seq<Step> {
    if parameters.ping {
        seq![Step::Run { probe: Probe::Ping, command: command_line(platform, Probe::Ping, parameters.target) }]
    } else {
        Seq::empty()
    }
}

/// The route trace that the parameters ask for, if any.
pub open spec fn traceroute_steps(parameters: Parameters, platform: Platform) -> Seq<Step> {
    if parameters.traceroute {
        seq![
            Step::Run {
                probe: Probe::Traceroute,
                command: command_line(platform, Probe::Traceroute, parameters.target),
            },
        ]
    } else {
        Seq::empty()
    }
}

/// Everything that the parameters ask for, in the order in which it is
/// done: lookup, ping, route trace.
pub open spec fn plan(parameters: Parameters, platform: Platform) -> Seq<Step> {
    lookup_steps(parameters) + ping_steps(parameters, platform) + traceroute_steps(
        parameters,
        platform,
    )
}

/// The line that reports a utility that could not be started.
pub open spec fn spawn_error_line(error: Seq<char>) -> Seq<char> {
    "Probe could not be started: "@ + error
}

/// The lines to print for an outcome.
pub open spec fn report_lines(target: Seq<char>, event: Event) -> Seq<Seq<char>> {
    match event {
        Event::Resolved(addresses) => resolved_lines(target, addresses),
        Event::LookupFailed(error) => seq![lookup_error_line(error)],
        Event::Captured(stdout) => seq![lossy_text(stdout)],
        Event::SpawnFailed(error) => seq![spawn_error_line(error)],
    }
}

/// The lines to print for `outcome`, which came of an action on `target`.
///
/// A lookup that was answered gives one line for each address. Every other
/// outcome gives exactly one entry: the reason of a failure, or all that a
/// utility wrote, as text.
pub fn report(target: &str, outcome: &Outcome) -> (lines: Vec<String>)
    ensures
        lines.deep_view() == report_lines(target@, outcome@),
        lines@.len() == report_lines(target@, outcome@).len(),
{
    match outcome {
        Outcome::Resolved(addresses) => resolved_report(target, addresses),
        Outcome::LookupFailed(error) => one_line(lookup_error_report(error.as_str())),
        Outcome::Captured(stdout) => one_line(captured_text(stdout.as_slice())),
        Outcome::SpawnFailed(error) => one_line(
            "Probe could not be started: ".to_owned().concat(error.as_str()),
        ),
    }
}

fn one_line(line: String) -> (lines: Vec<String>)
    ensures
        lines.deep_view() == seq![line@],
        lines@.len() == 1,
{
    let mut lines: Vec<String> = Vec::new();
    lines.push(line);
    assert(lines.deep_view() =~= seq![line@]);
    lines
}

/// The actions that `invocation` asks for, in the order in which they are
/// to be done, or the reason why none of them is.
///
/// A name server that is no IP address is refused before anything is done:
/// then there is no action at all, not even those that need no name server.
pub fn plan_actions(invocation: &Invocation, platform: Platform) -> (actions: Result<
    Vec<Action>,
    InvalidDnsServer,
>)
    ensures
        match actions {
            Ok(actions) => !refused(invocation@) && steps_of(actions@) == plan(
                invocation@,
                platform,
            ),
            Err(e) => refused(invocation@) && invocation@.dns_server == Some(e.server@),
        },
{
    let mut actions: Vec<Action> = Vec::new();
    if let Some(server) = &invocation.dns_server {
        match resolve_dns(invocation.target.as_str(), server.as_str()) {
            Ok(query) => {
                actions.push(Action::Resolve(query));
            },
            Err(e) => {
                return Err(e);
            },
        }
    }
    assert(steps_of(actions@) =~= lookup_steps(invocation@));
    if invocation.ping {
        actions.push(Action::Run(Probe::Ping, ping(platform, invocation.target.as_str())));
    }
    assert(steps_of(actions@) =~= lookup_steps(invocation@) + ping_steps(invocation@, platform));
    if invocation.traceroute {
        actions.push(
            Action::Run(Probe::Traceroute, traceroute(platform, invocation.target.as_str())),
        );
    }
    assert(steps_of(actions@) =~= plan(invocation@, platform));
    Ok(actions)
}

/// The actions of a list, as mathematical values.
pub open spec fn steps_of(actions: Seq<Action>) -> Seq<Step> {
    actions.map_values(|a: Action| a@)
}

/// A session between two actions: whose output is being made, and what is
/// still to be done.
pub struct Progress {
    pub target: Seq<char>,
    pub pending: Seq<Step>,
}

/// Where a session starts: with the whole plan pending, unless the
/// parameters are refused.
pub open spec fn started(parameters: Parameters, platform: Platform) -> Option<Progress> {
    if refused(parameters) {
        None
    } else {
        Some(Progress { target: parameters.target, pending: plan(parameters, platform) })
    }
}

/// Where a session stands once the outcome of its first pending action is
/// known: at the action after it, whatever the outcome was.
pub open spec fn advanced(progress: Progress) -> Progress {
    Progress {
        target: progress.target,
        pending: if progress.pending.len() > 0 {
            progress.pending.drop_first()
        } else {
            progress.pending
        },
    }
}

/// What a session prints when it is told an outcome: the report of the
/// outcome while an action is pending, and nothing after the last one.
pub open spec fn printed(progress: Progress, event: Event) -> Seq<Seq<char>> {
    if progress.pending.len() > 0 {
        report_lines(progress.target, event)
    } else {
        Seq::empty()
    }
}

/// One invocation in progress.
#[derive(Debug)]
pub struct Session {
    target: String,
    pending: Vec<Action>,
}

impl View for Session {
    type V = Progress;

    closed spec fn view(&self) -> Progress {
        Progress { target: self.target@, pending: steps_of(self.pending@) }
    }
}

impl Session {
    /// Starts a session for `invocation`. A name server that is no IP
    /// address ends it before it begins.
    pub fn start(invocation: &Invocation, platform: Platform) -> (session: Result<
        Session,
        InvalidDnsServer,
    >)
        ensures
            match session {
                Ok(s) => started(invocation@, platform) == Some(s@),
                Err(e) => refused(invocation@) && invocation@.dns_server == Some(e.server@),
            },
    {
        match plan_actions(invocation, platform) {
            Ok(pending) => Ok(Session { target: invocation.target.clone(), pending }),
            Err(e) => Err(e),
        }
    }

    /// The action to carry out next, if one is left.
    pub fn next_action(&self) -> (action: Option<&Action>)
        ensures
            match action {
                Some(a) => self@.pending.len() > 0 && a@ == self@.pending[0],
                None => self@.pending.len() == 0,
            },
    {
        if self.pending.len() > 0 {
            Some(&self.pending[0])
        } else {
            None
        }
    }

    /// Whether every action has had its outcome.
    pub fn is_finished(&self) -> (finished: bool)
        ensures
            finished == (self@.pending.len() == 0),
    {
        self.pending.len() == 0
    }

    /// Takes note of what came of the action that [`Session::next_action`]
    /// gave, and returns the lines to print for it. The session then stands
    /// at the following action: no outcome ends it early.
    pub fn record(&mut self, outcome: &Outcome) -> (lines: Vec<String>)
        ensures
            final(self)@ == advanced(old(self)@),
            lines.deep_view() == printed(old(self)@, outcome@),
            lines@.len() == printed(old(self)@, outcome@).len(),
    {
        if self.pending.len() == 0 {
            let lines: Vec<String> = Vec::new();
            assert(lines.deep_view() =~= Seq::<Seq<char>>::empty());
            return lines;
        }
        let ghost before = self.pending@;
        self.pending.remove(0);
        assert(steps_of(self.pending@) =~= steps_of(before).drop_first());
        report(self.target.as_str(), outcome)
    }
}

/// A session starts exactly when the name server, if one is named, is an IP
/// address; the lookup at that server, on port 53, is then the first thing
/// it does. With any other text for the name server nothing is done.
pub proof fn name_server_decides_the_start(parameters: Parameters, platform: Platform)
    requires
        parameters.dns_server is Some,
    ensures
        started(parameters, platform) is Some <==> ip_literal(parameters.dns_server.unwrap())
            is Some,
        started(parameters, platform) matches Some(progress) ==> progress.pending.len() > 0
            && progress.pending[0] == (Step::Resolve {
            target: parameters.target,
            server: ip_literal(parameters.dns_server.unwrap()).unwrap(),
            port: 53,
        }),
{
}

/// Asking for the ping alone asks for nothing else: the ping is the whole
/// plan, with no lookup and no route trace beside it.
pub proof fn ping_alone_is_the_whole_plan(parameters: Parameters, platform: Platform)
    requires
        parameters.dns_server is None,
        parameters.ping,
        !parameters.traceroute,
    ensures
        started(parameters, platform) == Some(
            Progress {
                target: parameters.target,
                pending: seq![
                    Step::Run {
                        probe: Probe::Ping,
                        command: command_line(platform, Probe::Ping, parameters.target),
                    },
                ],
            },
        ),
{
    assert(plan(parameters, platform) =~= seq![
        Step::Run { probe: Probe::Ping, command: command_line(platform, Probe::Ping, parameters.target) },
    ]);
}

/// With both probes asked for, the plan ends with the ping and then the
/// route trace. Whatever comes of the ping, its report is printed and the
/// route trace is next; whatever comes of the route trace, its report is
/// printed and the session is finished.
pub proof fn both_probes_run_in_order(
    parameters: Parameters,
    platform: Platform,
    of_ping: Event,
    of_traceroute: Event,
)
    requires
        parameters.ping,
        parameters.traceroute,
        !refused(parameters),
    ensures
        ({
            let whole = started(parameters, platform).unwrap();
            let at_ping = if parameters.dns_server is Some {
                advanced(whole)
            } else {
                whole
            };
            let at_traceroute = advanced(at_ping);
            &&& at_ping.pending == seq![
                Step::Run {
                    probe: Probe::Ping,
                    command: command_line(platform, Probe::Ping, parameters.target),
                },
                Step::Run {
                    probe: Probe::Traceroute,
                    command: command_line(platform, Probe::Traceroute, parameters.target),
                },
            ]
            &&& printed(at_ping, of_ping) == report_lines(parameters.target, of_ping)
            &&& at_traceroute.pending == seq![
                Step::Run {
                    probe: Probe::Traceroute,
                    command: command_line(platform, Probe::Traceroute, parameters.target),
                },
            ]
            &&& printed(at_traceroute, of_traceroute) == report_lines(
                parameters.target,
                of_traceroute,
            )
            &&& advanced(at_traceroute).pending == Seq::<Step>::empty()
        }),
{
    let whole = started(parameters, platform).unwrap();
    let at_ping = if parameters.dns_server is Some {
        advanced(whole)
    } else {
        whole
    };
    let ping_step = Step::Run {
        probe: Probe::Ping,
        command: command_line(platform, Probe::Ping, parameters.target),
    };
    let traceroute_step = Step::Run {
        probe: Probe::Traceroute,
        command: command_line(platform, Probe::Traceroute, parameters.target),
    };
    assert(at_ping.pending =~= seq![ping_step, traceroute_step]);
    assert(advanced(at_ping).pending =~= seq![traceroute_step]);
    assert(advanced(advanced(at_ping)).pending =~= Seq::<Step>::empty());
}

/// A lookup that fails is reported in exactly one line, and the session
/// goes on with what was pending behind it.
pub proof fn failed_lookup_does_not_end_the_session(progress: Progress, error: Seq<char>)
    requires
        progress.pending.len() > 0,
    ensures
        printed(progress, Event::LookupFailed(error)) == seq![lookup_error_line(error)],
        printed(progress, Event::LookupFailed(error)).len() == 1,
        advanced(progress).pending == progress.pending.drop_first(),
{
}

} // verus!
