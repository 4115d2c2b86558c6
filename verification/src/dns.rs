//! The DNS lookup: which name server is asked, and what is printed of the
//! answer.

use crate::literal::{ip_literal, parse_ip_literal, Address, IpLiteral};
use trust_dns_resolver::config::{NameServerConfig, NameServerConfigGroup, ResolverConfig};
use vstd::prelude::*;

verus! {

/// One entry of the resolver's name server list, as `trust_dns_resolver`
/// holds it.
#[verifier::external_type_specification]
#[verifier::external_body]
pub struct ExNameServerConfig(NameServerConfig);

/// The resolver's name server list, as `trust_dns_resolver` holds it.
#[verifier::external_type_specification]
#[verifier::external_body]
pub struct ExNameServerConfigGroup(NameServerConfigGroup);

/// The resolver's configuration, as `trust_dns_resolver` holds it.
#[verifier::external_type_specification]
#[verifier::external_body]
pub struct ExResolverConfig(ResolverConfig);

/// How a name server is reached. Both ways are unencrypted.
pub enum Transport {
    Udp,
    Tcp,
}

/// One entry of a name server list: the address and port of the server's
/// socket, the transport, and the trust flag. An entry of the resolver has
/// more to it (a name for TLS, a local address to bind to), which the
/// entries made here leave unset.
pub struct NameServer {
    pub address: Address,
    pub port: u16,
    pub transport: Transport,
    /// Whether a "no such domain" answer of this server is final.
    pub trust_nx: bool,
}

/// The entries of a name server list, in the order in which they are tried.
pub uninterp spec fn group_name_servers(group: NameServerConfigGroup) -> Seq<NameServer>;

/// The entries of the name server list of a configuration.
pub uninterp spec fn config_name_servers(config: ResolverConfig) -> Seq<NameServer>;

/// The name server list that reaches one server without encryption: over
/// UDP first, then over TCP, on the same port.
pub open spec fn clear_name_servers(address: Address, port: u16, trust_nx: bool) -> Seq<
    NameServer,
> {
    seq![
        NameServer { address, port, transport: Transport::Udp, trust_nx },
        NameServer { address, port, transport: Transport::Tcp, trust_nx },
    ]
}

/// `NameServerConfigGroup::from_ips_clear` for a single address, which is
/// handed over as the standard address made of the same bytes or segments.
/// For each address it is given, that function appends a UDP entry and then
/// a TCP entry, both with the given port and trust flag, to an empty list.
/// Nothing of this is proved here.
#[verifier::external_body]
fn name_servers(server: IpLiteral, port: u16, trust_nx: bool) -> (group: NameServerConfigGroup)
    ensures
        group_name_servers(group) == clear_name_servers(server@, port, trust_nx),
{
    let ip = match server {
        IpLiteral::V4(octets) => octets.into(),
        IpLiteral::V6(segments) => segments.into(),
    };
    NameServerConfigGroup::from_ips_clear(&[ip], port, trust_nx)
}

/// `ResolverConfig::from_parts` without a local domain or search list. The
/// configuration it returns holds the name server list it was given.
/// Nothing of this is proved here.
#[verifier::external_body]
fn config_from(group: NameServerConfigGroup) -> (config: ResolverConfig)
    ensures
        config_name_servers(config) == group_name_servers(group),
{
    ResolverConfig::from_parts(None, Vec::new(), group)
}

/// The port on which name servers are asked.
pub const DNS_PORT: u16 = 53;

/// The name server that is named where the user names none.
pub const DEFAULT_DNS_SERVER: &'static str = "8.8.8.8";

/// A DNS lookup that is ready to be made.
#[derive(Clone, Debug, PartialEq, Eq)]
pub struct DnsQuery {
    /// The name to look up.
    pub target: String,
    /// The only name server to ask.
    pub server: IpLiteral,
    /// The port to ask it on.
    pub port: u16,
}

/// A name server was given that is not an IP address.
#[derive(Clone, Debug, PartialEq, Eq)]
pub struct InvalidDnsServer {
    /// The text that was given.
    pub server: String,
}

impl InvalidDnsServer {
    /// What to tell the user.
    pub fn message(&self) -> (text: String)
        ensures
            text@ == "Invalid DNS server: "@ + self.server@,
    {
        "Invalid DNS server: ".to_owned().concat(self.server.as_str())
    }
}

impl DnsQuery {
    /// The configuration of a resolver that asks this query's server and
    /// no other, without encryption.
    pub fn resolver_config(&self) -> (config: ResolverConfig)
        ensures
            config_name_servers(config) == clear_name_servers(self.server@, self.port, true),
    {
        config_from(name_servers(self.server, self.port, true))
    }
}

/// Prepares the lookup of `target` at the name server `dns_server`, which
/// has to be an IP address: there is no falling back to another server.
pub fn resolve_dns(target: &str, dns_server: &str) -> (query: Result<DnsQuery, InvalidDnsServer>)
    ensures
        match query {
            Ok(q) => q.target@ == target@ && ip_literal(dns_server@) == Some(q.server@) && q.port
                == 53,
            Err(e) => ip_literal(dns_server@) is None && e.server@ == dns_server@,
        },
{
    match parse_ip_literal(dns_server) {
        Some(server) => Ok(DnsQuery { target: target.to_owned(), server, port: DNS_PORT }),
        None => Err(InvalidDnsServer { server: dns_server.to_owned() }),
    }
}

/// The line that reports one address found for `target`.
pub open spec fn resolved_line(target: Seq<char>, address: Seq<char>) -> Seq<char> {
    "Resolved address for "@ + target + ": "@ + address
}

/// The lines that report the addresses found for `target`: one for each, in
/// the order of the answer.
pub open spec fn resolved_lines(target: Seq<char>, addresses: Seq<Seq<char>>) -> Seq<Seq<char>> {
    Seq::new(addresses.len(), |i: int| resolved_line(target, addresses[i]))
}

/// The line that reports a lookup that failed.
pub open spec fn lookup_error_line(error: Seq<char>) -> Seq<char> {
    "DNS resolution error: "@ + error
}

/// The lines to print for the addresses that a lookup of `target` found.
/// There are as many lines as addresses; each names the target and one
/// address.
pub fn resolved_report(target: &str, addresses: &Vec<String>) -> (lines: Vec<String>)
    ensures
        lines.deep_view() == resolved_lines(target@, addresses.deep_view()),
        lines@.len() == addresses@.len(),
{
    let mut lines: Vec<String> = Vec::new();
    let mut i: usize = 0;
    while i < addresses.len()
        invariant
            i <= addresses@.len(),
            lines@.len() == i,
            forall|j: int| 0 <= j < i ==> (#[trigger] lines@[j])@ == resolved_line(
                target@,
                addresses@[j]@,
            ),
        decreases addresses@.len() - i,
    {
        let line = "Resolved address for ".to_owned().concat(target).concat(": ").concat(
            addresses[i].as_str(),
        );
        lines.push(line);
        i += 1;
    }
    assert(lines.deep_view() =~= resolved_lines(target@, addresses.deep_view()));
    lines
}

/// The one line to print for a lookup that failed for the reason `error`.
pub fn lookup_error_report(error: &str) -> (line: String)
    ensures
        line@ == lookup_error_line(error@),
{
    "DNS resolution error: ".to_owned().concat(error)
}

/// A lookup that finds addresses is reported in as many lines as there are
/// addresses, in their order. Each line holds the target, after the words
/// in front of it, and ends with its address.
pub proof fn each_address_has_its_line(target: Seq<char>, addresses: Seq<Seq<char>>)
    ensures
        resolved_lines(target, addresses).len() == addresses.len(),
        forall|i: int|
            0 <= i < addresses.len() ==> {
                let line = #[trigger] resolved_lines(target, addresses)[i];
                &&& line.len() == 23 + target.len() + addresses[i].len()
                &&& line.subrange(21, 21 + target.len() as int) == target
                &&& line.skip(23 + target.len() as int) == addresses[i]
            },
{
    reveal_strlit("Resolved address for ");
    reveal_strlit(": ");
    assert forall|i: int| 0 <= i < addresses.len() implies {
        let line = #[trigger] resolved_lines(target, addresses)[i];
        &&& line.len() == 23 + target.len() + addresses[i].len()
        &&& line.subrange(21, 21 + target.len() as int) == target
        &&& line.skip(23 + target.len() as int) == addresses[i]
    } by {
        let line = resolved_lines(target, addresses)[i];
        assert(line == resolved_line(target, addresses[i]));
        assert(line.subrange(21, 21 + target.len() as int) =~= target);
        assert(line.skip(23 + target.len() as int) =~= addresses[i]);
    }
}

} // verus!
