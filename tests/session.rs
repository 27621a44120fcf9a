use splitdns::{
    Action, DaemonCall, DnsError, Event, Failure, IpAddress, LinuxDns, Operation, ResolverConfig,
    SocketAddress, Stage,
};
use std::collections::HashMap;

fn v4(a: u8, b: u8, c: u8, d: u8, port: u16) -> SocketAddress {
    SocketAddress { ip: IpAddress::V4([a, b, c, d]), port }
}

fn config(interface: &str, domain: &str, resolvers: Vec<SocketAddress>) -> ResolverConfig {
    ResolverConfig { interface: interface.to_string(), domain: domain.to_string(), resolvers }
}

fn failure(name: Option<&str>, detail: &str) -> Failure {
    Failure { name: name.map(|n| n.to_string()), detail: detail.to_string() }
}

/// Runs a session to its end. The index file reads `index_text`; the daemon
/// call numbered `fail_call` (from 0) fails with `fail`.
fn drive(
    op: Operation,
    cfg: &ResolverConfig,
    index_text: &str,
    fail_call: Option<usize>,
    fail: Failure,
) -> (Vec<DaemonCall>, Result<(), DnsError>) {
    let (mut session, mut action) = LinuxDns::begin(op, cfg, true);
    let mut calls = Vec::new();
    loop {
        let event = match action {
            Action::Connect | Action::CreateProxy => Event::Succeeded,
            Action::ReadIfindex(_) => Event::Read(index_text.to_string()),
            Action::Call(c) => {
                calls.push(c);
                if fail_call == Some(calls.len() - 1) {
                    Event::Failed(fail.clone())
                } else {
                    Event::Succeeded
                }
            }
            Action::Finish(r) => return (calls, r),
        };
        action = session.step(event);
    }
}

#[derive(Clone, Debug, PartialEq, Default)]
struct Link {
    servers: Vec<(i32, Vec<u8>)>,
    dns_over_tls: Option<String>,
    domains: Vec<(String, bool)>,
}

/// Applies daemon calls the way the resolver daemon treats them.
fn apply(host: &mut HashMap<i32, Link>, calls: &[DaemonCall]) {
    for c in calls {
        match c {
            DaemonCall::SetLinkDns(i, s) => host.entry(*i).or_default().servers = s.clone(),
            DaemonCall::SetLinkDnsOverTls(i, m) => {
                host.entry(*i).or_default().dns_over_tls = Some(m.clone())
            }
            DaemonCall::SetLinkDomains(i, d) => host.entry(*i).or_default().domains = d.clone(),
            DaemonCall::RevertLink(i) => {
                host.remove(i);
            }
        }
    }
}

fn ok_run(op: Operation, cfg: &ResolverConfig, index_text: &str) -> Vec<DaemonCall> {
    let (calls, r) = drive(op, cfg, index_text, None, failure(None, ""));
    assert_eq!(r, Ok(()));
    calls
}

#[test]
fn test_domain_config_operations() {
    let cfg = config("lo", "config.example.com", vec![v4(192, 168, 1, 101, 53)]);
    let added = ok_run(Operation::Add, &cfg, "1\n");
    assert_eq!(
        added,
        vec![
            DaemonCall::SetLinkDns(1, vec![(2, vec![192, 168, 1, 101])]),
            DaemonCall::SetLinkDnsOverTls(1, "no".to_string()),
            DaemonCall::SetLinkDomains(1, vec![("config.example.com".to_string(), true)]),
        ]
    );
    let removed = ok_run(Operation::Remove, &cfg, "1\n");
    assert_eq!(removed, vec![DaemonCall::RevertLink(1)]);
}

#[test]
fn add_then_remove_on_lo() {
    let cfg = config("lo", "corp.example.com", vec![v4(10, 0, 0, 5, 53), v4(10, 0, 0, 6, 53)]);
    let mut host: HashMap<i32, Link> = HashMap::new();
    apply(&mut host, &ok_run(Operation::Add, &cfg, "1\n"));
    let link = host.get(&1).cloned().unwrap();
    assert_eq!(link.servers, vec![(2, vec![0x0a, 0, 0, 5]), (2, vec![0x0a, 0, 0, 6])]);
    assert_eq!(link.dns_over_tls, Some("no".to_string()));
    assert_eq!(link.domains, vec![("corp.example.com".to_string(), true)]);
    apply(&mut host, &ok_run(Operation::Remove, &cfg, "1\n"));
    assert!(host.get(&1).is_none());
}

#[test]
fn add_twice_same_as_once() {
    let cfg = config("eth0", "corp.example.com", vec![v4(10, 0, 0, 5, 53)]);
    let mut once: HashMap<i32, Link> = HashMap::new();
    apply(&mut once, &ok_run(Operation::Add, &cfg, "2"));
    let mut twice = once.clone();
    apply(&mut twice, &ok_run(Operation::Add, &cfg, "2"));
    assert_eq!(once, twice);
}

#[test]
fn second_add_replaces_first() {
    let first = config("eth0", "corp.example.com", vec![v4(10, 0, 0, 5, 53)]);
    let second = config("eth0", "corp.example.com", vec![v4(10, 0, 0, 7, 53), v4(10, 0, 0, 8, 53)]);
    let mut host: HashMap<i32, Link> = HashMap::new();
    apply(&mut host, &ok_run(Operation::Add, &first, "3\n"));
    apply(&mut host, &ok_run(Operation::Add, &second, "3\n"));
    assert_eq!(host.len(), 1);
    assert_eq!(host[&3].servers, vec![(2, vec![10, 0, 0, 7]), (2, vec![10, 0, 0, 8])]);
}

#[test]
fn ipv6_resolver_is_family_ten() {
    let mut octets = [0u8; 16];
    octets[0] = 0x20;
    octets[1] = 0x01;
    octets[2] = 0x0d;
    octets[3] = 0xb8;
    octets[15] = 0x01;
    let cfg = config("lo", "corp.example.com", vec![SocketAddress { ip: IpAddress::V6(octets), port: 53 }]);
    let calls = ok_run(Operation::Add, &cfg, "1\n");
    assert_eq!(calls[0], DaemonCall::SetLinkDns(1, vec![(10, octets.to_vec())]));
}

#[test]
fn unknown_interface_fails_before_any_call() {
    let cfg = config("nonexistent0", "corp.example.com", vec![v4(10, 0, 0, 5, 53)]);
    let (mut session, action) = LinuxDns::begin(Operation::Add, &cfg, true);
    assert_eq!(action, Action::Connect);
    assert_eq!(session.step(Event::Succeeded), Action::CreateProxy);
    assert_eq!(session.step(Event::Succeeded), Action::ReadIfindex("nonexistent0".to_string()));
    let end = session.step(Event::Failed(failure(None, "No such file or directory (os error 2)")));
    assert_eq!(
        end,
        Action::Finish(Err(DnsError::InterfaceIndex(
            "nonexistent0".to_string(),
            "No such file or directory (os error 2)".to_string()
        )))
    );
    assert_eq!(session.stage(), Stage::Finished);
}

#[test]
fn garbage_index_is_invalid_ifindex() {
    let cfg = config("eth9", "corp.example.com", vec![v4(10, 0, 0, 5, 53)]);
    let (calls, r) = drive(Operation::Add, &cfg, "eth\n", None, failure(None, ""));
    assert!(calls.is_empty());
    assert_eq!(
        r,
        Err(DnsError::InterfaceIndex("eth9".to_string(), "Invalid ifindex value".to_string()))
    );
}

#[test]
fn remove_on_clean_link_succeeds() {
    let cfg = config("lo", "never.example.com", vec![v4(10, 0, 0, 5, 53)]);
    let mut host: HashMap<i32, Link> = HashMap::new();
    apply(&mut host, &ok_run(Operation::Remove, &cfg, "1\n"));
    assert!(host.is_empty());
}

#[test]
fn unsupported_host_asks_for_nothing() {
    let cfg = config("lo", "corp.example.com", vec![v4(10, 0, 0, 5, 53)]);
    for op in [Operation::Add, Operation::Remove] {
        let (mut session, action) = LinuxDns::begin(op, &cfg, false);
        assert_eq!(action, Action::Finish(Err(DnsError::Unsupported)));
        assert_eq!(session.step(Event::Succeeded), Action::Finish(Err(DnsError::Unsupported)));
    }
}

#[test]
fn access_denied_on_connect_is_permission_denied() {
    let cfg = config("lo", "corp.example.com", vec![v4(10, 0, 0, 5, 53)]);
    let (mut session, _) = LinuxDns::begin(Operation::Add, &cfg, true);
    let end = session.step(Event::Failed(failure(
        Some("org.freedesktop.DBus.Error.AccessDenied"),
        "denied",
    )));
    assert_eq!(end, Action::Finish(Err(DnsError::PermissionDenied)));
}

#[test]
fn other_connect_failure_is_ipc_connect() {
    let cfg = config("lo", "corp.example.com", vec![v4(10, 0, 0, 5, 53)]);
    let (mut session, _) = LinuxDns::begin(Operation::Remove, &cfg, true);
    let end = session.step(Event::Failed(failure(None, "socket missing")));
    assert_eq!(end, Action::Finish(Err(DnsError::IpcConnect("socket missing".to_string()))));
}

#[test]
fn proxy_failure_is_manager_proxy() {
    let cfg = config("lo", "corp.example.com", vec![v4(10, 0, 0, 5, 53)]);
    let (mut session, _) = LinuxDns::begin(Operation::Add, &cfg, true);
    session.step(Event::Succeeded);
    let end = session.step(Event::Failed(failure(
        Some("org.freedesktop.DBus.Error.ServiceUnknown"),
        "no resolved",
    )));
    assert_eq!(end, Action::Finish(Err(DnsError::ManagerProxy("no resolved".to_string()))));
}

#[test]
fn failed_domains_call_reverts_and_reports() {
    let cfg = config("lo", "corp.example.com", vec![v4(10, 0, 0, 5, 53)]);
    let (calls, r) = drive(Operation::Add, &cfg, "1\n", Some(2), failure(None, "bad domain"));
    assert_eq!(calls.len(), 4);
    assert_eq!(calls[3], DaemonCall::RevertLink(1));
    assert_eq!(r, Err(DnsError::SetLinkDomains("bad domain".to_string())));
}

#[test]
fn failed_servers_call_reverts_and_reports() {
    let cfg = config("lo", "corp.example.com", vec![v4(10, 0, 0, 5, 53)]);
    let (calls, r) = drive(Operation::Add, &cfg, "1\n", Some(0), failure(None, "bad servers"));
    assert_eq!(calls.len(), 2);
    assert_eq!(calls[1], DaemonCall::RevertLink(1));
    assert_eq!(r, Err(DnsError::SetLinkDns("bad servers".to_string())));
}

#[test]
fn failed_tls_call_reports_set_link_dns() {
    let cfg = config("lo", "corp.example.com", vec![v4(10, 0, 0, 5, 53)]);
    let (calls, r) = drive(Operation::Add, &cfg, "1\n", Some(1), failure(None, "tls"));
    assert_eq!(calls[2], DaemonCall::RevertLink(1));
    assert_eq!(r, Err(DnsError::SetLinkDns("tls".to_string())));
}

#[test]
fn failed_revert_is_revert_link() {
    let cfg = config("lo", "corp.example.com", vec![v4(10, 0, 0, 5, 53)]);
    let (calls, r) = drive(Operation::Remove, &cfg, "1\n", Some(0), failure(None, "nope"));
    assert_eq!(calls, vec![DaemonCall::RevertLink(1)]);
    assert_eq!(r, Err(DnsError::RevertLink("nope".to_string())));
}

#[test]
fn denied_daemon_call_is_permission_denied() {
    let cfg = config("lo", "corp.example.com", vec![v4(10, 0, 0, 5, 53)]);
    let denied = failure(Some("org.freedesktop.DBus.Error.InteractiveAuthorizationRequired"), "polkit");
    let (_, r) = drive(Operation::Remove, &cfg, "1\n", Some(0), denied);
    assert_eq!(r, Err(DnsError::PermissionDenied));
}
