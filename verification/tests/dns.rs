use netpulse::dns::{
    lookup_error_report, resolve_dns, resolved_report, DnsQuery, InvalidDnsServer,
    DEFAULT_DNS_SERVER, DNS_PORT,
};
use netpulse::literal::IpLiteral;
use trust_dns_resolver::config::Protocol;

#[test]
fn lookup_is_prepared_for_an_ipv4_server() {
    assert_eq!(
        resolve_dns("example.com", "8.8.8.8"),
        Ok(DnsQuery {
            target: "example.com".to_string(),
            server: IpLiteral::V4([8, 8, 8, 8]),
            port: 53,
        })
    );
}

#[test]
fn lookup_is_prepared_for_an_ipv6_server() {
    assert_eq!(
        resolve_dns("example.com", "2001:4860:4860::8888"),
        Ok(DnsQuery {
            target: "example.com".to_string(),
            server: IpLiteral::V6([0x2001, 0x4860, 0x4860, 0, 0, 0, 0, 0x8888]),
            port: 53,
        })
    );
}

#[test]
fn server_that_is_no_address_is_refused() {
    let refused = resolve_dns("example.com", "not-an-ip");
    assert_eq!(
        refused,
        Err(InvalidDnsServer { server: "not-an-ip".to_string() })
    );
    assert_eq!(refused.unwrap_err().message(), "Invalid DNS server: not-an-ip");
    assert!(resolve_dns("example.com", "dns.google").is_err());
    assert!(resolve_dns("example.com", "").is_err());
}

#[test]
fn port_and_default_server_are_the_usual_ones() {
    assert_eq!(DNS_PORT, 53);
    assert_eq!(DEFAULT_DNS_SERVER, "8.8.8.8");
    assert!(resolve_dns("example.com", DEFAULT_DNS_SERVER).is_ok());
}

#[test]
fn resolver_asks_only_the_given_server_over_udp_then_tcp() {
    let query = resolve_dns("example.com", "8.8.8.8").unwrap();
    let config = query.resolver_config();
    assert!(config.domain().is_none());
    assert!(config.search().is_empty());
    let servers = config.name_servers();
    assert_eq!(servers.len(), 2);
    assert_eq!(servers[0].protocol, Protocol::Udp);
    assert_eq!(servers[1].protocol, Protocol::Tcp);
    for server in servers {
        assert_eq!(format!("{}", server.socket_addr), "8.8.8.8:53");
        assert!(server.trust_nx_responses);
        assert!(server.tls_dns_name.is_none());
        assert!(server.bind_addr.is_none());
    }
}

#[test]
fn resolver_asks_an_ipv6_server_on_the_query_port() {
    let query = DnsQuery {
        target: "example.com".to_string(),
        server: IpLiteral::V6([0x2001, 0xdb8, 0, 0, 0, 0, 0, 1]),
        port: 5353,
    };
    let config = query.resolver_config();
    let servers = config.name_servers();
    assert_eq!(servers.len(), 2);
    assert_eq!(format!("{}", servers[0].socket_addr), "[2001:db8::1]:5353");
    assert_eq!(format!("{}", servers[1].socket_addr), "[2001:db8::1]:5353");
    assert_eq!(servers[0].protocol, Protocol::Udp);
    assert_eq!(servers[1].protocol, Protocol::Tcp);
}

#[test]
fn each_address_gets_one_line() {
    let addresses = vec!["93.184.216.34".to_string(), "2606:2800:220:1::1".to_string()];
    assert_eq!(
        resolved_report("example.com", &addresses),
        vec![
            "Resolved address for example.com: 93.184.216.34".to_string(),
            "Resolved address for example.com: 2606:2800:220:1::1".to_string(),
        ]
    );
}

#[test]
fn no_address_gets_no_line() {
    assert_eq!(resolved_report("example.com", &Vec::new()), Vec::<String>::new());
}

#[test]
fn failed_lookup_gets_its_reason() {
    assert_eq!(
        lookup_error_report("request timed out"),
        "DNS resolution error: request timed out"
    );
}
