use vstd::prelude::*;
use crate::config::{ResolverConfig, ResolverConfigView};
use crate::encode::{encode_servers, encoded, encoded_all, servers_view};

verus! {

/// A method call on the resolver daemon's manager object.
#[derive(Clone, Debug, PartialEq, Eq)]
pub enum DaemonCall {
    /// Sets the link's servers, as `(family, octets)`, in preference order.
    SetLinkDns(i32, Vec<(i32, Vec<u8>)>),
    /// Sets the link's DNS-over-TLS mode.
    SetLinkDnsOverTls(i32, String),
    /// Sets the link's domains, each with its routing-only flag.
    SetLinkDomains(i32, Vec<(String, bool)>),
    /// Drops every per-link setting of the link.
    RevertLink(i32),
}

pub ghost enum CallView {
    SetLinkDns(i32, Seq<(i32, Seq<u8>)>),
    SetLinkDnsOverTls(i32, Seq<char>),
    SetLinkDomains(i32, Seq<(Seq<char>, bool)>),
    RevertLink(i32),
}

pub open spec fn domains_view(v: Seq<(String, bool)>) -> Seq<(Seq<char>, bool)> {
    v.map_values(|p: (String, bool)| (p.0@, p.1))
}

impl View for DaemonCall {
    type V = CallView;

    open spec fn view(&self) -> CallView {
        match self {
            DaemonCall::SetLinkDns(i, s) => CallView::SetLinkDns(*i, servers_view(s@)),
            DaemonCall::SetLinkDnsOverTls(i, m) => CallView::SetLinkDnsOverTls(*i, m@),
            DaemonCall::SetLinkDomains(i, d) => CallView::SetLinkDomains(*i, domains_view(d@)),
            DaemonCall::RevertLink(i) => CallView::RevertLink(*i),
        }
    }
}

pub open spec fn calls_view(v: Seq<DaemonCall>) -> Seq<CallView> {
    v.map_values(|c: DaemonCall| c@)
}

fn copy_bytes(v: &Vec<u8>) -> (r: Vec<u8>)
    ensures
        r@ == v@,
{
    let mut r: Vec<u8> = Vec::new();
    let mut i: usize = 0;
    while i < v.len()
        invariant
            i <= v@.len(),
            r@ == v@.take(i as int),
        decreases v@.len() - i,
    {
        r.push(v[i]);
        i = i + 1;
        assert(r@ =~= v@.take(i as int));
    }
    assert(v@.take(v@.len() as int) =~= v@);
    r
}

fn copy_servers(v: &Vec<(i32, Vec<u8>)>) -> (r: Vec<(i32, Vec<u8>)>)
    ensures
        servers_view(r@) == servers_view(v@),
{
    let mut r: Vec<(i32, Vec<u8>)> = Vec::new();
    let mut i: usize = 0;
    while i < v.len()
        invariant
            i <= v@.len(),
            r@.len() == i,
            forall|k: int| 0 <= k < i ==> servers_view(r@)[k] == servers_view(v@)[k],
        decreases v@.len() - i,
    {
        let b = copy_bytes(&v[i].1);
        let ghost before = r@;
        r.push((v[i].0, b));
        assert forall|k: int| 0 <= k < i + 1 implies servers_view(r@)[k] == servers_view(v@)[k] by {
            if k < i {
                assert(r@[k] == before[k]);
                assert(servers_view(before)[k] == servers_view(v@)[k]);
            }
        }
        i = i + 1;
    }
    assert(servers_view(r@) =~= servers_view(v@));
    r
}

fn copy_domains(v: &Vec<(String, bool)>) -> (r: Vec<(String, bool)>)
    ensures
        domains_view(r@) == domains_view(v@),
{
    let mut r: Vec<(String, bool)> = Vec::new();
    let mut i: usize = 0;
    while i < v.len()
        invariant
            i <= v@.len(),
            r@.len() == i,
            forall|k: int| 0 <= k < i ==> domains_view(r@)[k] == domains_view(v@)[k],
        decreases v@.len() - i,
    {
        let ghost before = r@;
        r.push((v[i].0.clone(), v[i].1));
        assert forall|k: int| 0 <= k < i + 1 implies domains_view(r@)[k] == domains_view(v@)[k] by {
            if k < i {
                assert(r@[k] == before[k]);
                assert(domains_view(before)[k] == domains_view(v@)[k]);
            }
        }
        i = i + 1;
    }
    assert(domains_view(r@) =~= domains_view(v@));
    r
}

impl DaemonCall {
    /// A copy of this call.
    pub fn duplicate(&self) -> (r: DaemonCall)
        ensures
            r@ == self@,
    {
        match self {
            DaemonCall::SetLinkDns(i, s) => DaemonCall::SetLinkDns(*i, copy_servers(s)),
            DaemonCall::SetLinkDnsOverTls(i, m) => DaemonCall::SetLinkDnsOverTls(*i, m.clone()),
            DaemonCall::SetLinkDomains(i, d) => DaemonCall::SetLinkDomains(*i, copy_domains(d)),
            DaemonCall::RevertLink(i) => DaemonCall::RevertLink(*i),
        }
    }
}

/// What the daemon holds for one link.
pub ghost struct LinkSettings {
    pub servers: Seq<(i32, Seq<u8>)>,
    pub dns_over_tls: Option<Seq<char>>,
    pub domains: Seq<(Seq<char>, bool)>,
}

/// A link with no per-link settings: the daemon's own defaults apply.
pub open spec fn clean_link() -> LinkSettings {
    LinkSettings { servers: Seq::empty(), dns_over_tls: None, domains: Seq::empty() }
}

/// The settings of link `i`; a link absent from `host` is clean.
pub open spec fn link_of(host: Map<i32, LinkSettings>, i: i32) -> LinkSettings {
    if host.contains_key(i) {
        host[i]
    } else {
        clean_link()
    }
}

/// The daemon's per-link state after one call: each setter replaces one
/// setting of its link, and a revert drops them all.
pub open spec fn after_call(host: Map<i32, LinkSettings>, c: CallView) -> Map<i32, LinkSettings> {
    match c {
        CallView::SetLinkDns(i, s) => host.insert(i, LinkSettings { servers: s, ..link_of(host, i) }),
        CallView::SetLinkDnsOverTls(i, m) => host.insert(
            i,
            LinkSettings { dns_over_tls: Some(m), ..link_of(host, i) },
        ),
        CallView::SetLinkDomains(i, d) => host.insert(i, LinkSettings { domains: d, ..link_of(host, i) }),
        CallView::RevertLink(i) => host.remove(i),
    }
}

/// The daemon's per-link state after a sequence of calls, made in order.
pub open spec fn after_calls(host: Map<i32, LinkSettings>, cs: Seq<CallView>) -> Map<
    i32,
    LinkSettings,
>
    decreases cs.len(),
{
    if cs.len() == 0 {
        host
    } else {
        after_calls(after_call(host, cs[0]), cs.drop_first())
    }
}

/// The transport mode set on a configured link: plain DNS, no TLS.
pub open spec fn tls_off() -> Seq<char> {
    "no"@
}

/// The calls that install `cfg` on link `i`: servers first, then the TLS
/// mode, and last the domain, routing-only, so that no query is routed to
/// the link before its servers are in place.
pub open spec fn add_plan(cfg: ResolverConfigView, i: i32) -> Seq<CallView> {
    seq![
        CallView::SetLinkDns(i, encoded_all(cfg.resolvers)),
        CallView::SetLinkDnsOverTls(i, tls_off()),
        CallView::SetLinkDomains(i, seq![(cfg.domain, true)]),
    ]
}

/// The call that takes every setting off link `i`.
pub open spec fn remove_plan(i: i32) -> Seq<CallView> {
    seq![CallView::RevertLink(i)]
}

/// The settings that `cfg` leaves on its link.
pub open spec fn installed(cfg: ResolverConfigView) -> LinkSettings {
    LinkSettings {
        servers: encoded_all(cfg.resolvers),
        dns_over_tls: Some(tls_off()),
        domains: seq![(cfg.domain, true)],
    }
}

/// The calls that install `cfg` on the link with index `ifindex`.
pub fn add_calls(cfg: &ResolverConfig, ifindex: i32) -> (r: Vec<DaemonCall>)
    ensures
        calls_view(r@) == add_plan(cfg@, ifindex),
{
    let servers = encode_servers(&cfg.resolvers);
    let mut domains: Vec<(String, bool)> = Vec::new();
    domains.push((cfg.domain.clone(), true));
    let mut r: Vec<DaemonCall> = Vec::new();
    r.push(DaemonCall::SetLinkDns(ifindex, servers));
    r.push(DaemonCall::SetLinkDnsOverTls(ifindex, "no".to_owned()));
    r.push(DaemonCall::SetLinkDomains(ifindex, domains));
    assert(domains_view(domains@) =~= seq![(cfg.domain@, true)]);
    assert(calls_view(r@) =~= add_plan(cfg@, ifindex));
    r
}

/// The calls that revert the link with index `ifindex`.
pub fn remove_calls(ifindex: i32) -> (r: Vec<DaemonCall>)
    ensures
        calls_view(r@) == remove_plan(ifindex),
{
    let mut r: Vec<DaemonCall> = Vec::new();
    r.push(DaemonCall::RevertLink(ifindex));
    assert(calls_view(r@) =~= remove_plan(ifindex));
    r
}

proof fn lemma_after_add(host: Map<i32, LinkSettings>, cfg: ResolverConfigView, i: i32)
    ensures
        after_calls(host, add_plan(cfg, i)) == host.insert(i, installed(cfg)),
{
    let p = add_plan(cfg, i);
    let h1 = after_call(host, p[0]);
    let h2 = after_call(h1, p[1]);
    let h3 = after_call(h2, p[2]);
    assert(p.drop_first().drop_first().drop_first() =~= Seq::<CallView>::empty());
    assert(p.drop_first()[0] == p[1]);
    assert(p.drop_first().drop_first()[0] == p[2]);
    assert(after_calls(h3, Seq::<CallView>::empty()) == h3);
    assert(after_calls(host, p) == after_calls(h1, p.drop_first()));
    assert(after_calls(h1, p.drop_first()) == after_calls(h2, p.drop_first().drop_first()));
    assert(after_calls(h2, p.drop_first().drop_first()) == after_calls(
        h3,
        p.drop_first().drop_first().drop_first(),
    ));
    assert(h3 =~= host.insert(i, installed(cfg)));
}

proof fn lemma_after_remove(host: Map<i32, LinkSettings>, i: i32)
    ensures
        after_calls(host, remove_plan(i)) == host.remove(i),
{
    let p = remove_plan(i);
    assert(p.drop_first() =~= Seq::<CallView>::empty());
    assert(after_calls(host, p) == after_calls(after_call(host, p[0]), p.drop_first()));
}

/// Adding a configuration leaves its link with the configuration's servers,
/// in the given order, TLS off, and exactly one domain, the configuration's
/// own, marked routing-only; no other link changes.
pub proof fn lemma_add_installs(host: Map<i32, LinkSettings>, cfg: ResolverConfigView, i: i32)
    ensures
        link_of(after_calls(host, add_plan(cfg, i)), i) == installed(cfg),
        link_of(after_calls(host, add_plan(cfg, i)), i).servers.len() == cfg.resolvers.len(),
        forall|k: int|
            0 <= k < cfg.resolvers.len() ==> link_of(after_calls(host, add_plan(cfg, i)), i).servers[k]
                == encoded(#[trigger] cfg.resolvers[k]),
        forall|j: i32| j != i ==> link_of(after_calls(host, add_plan(cfg, i)), j) == link_of(host, j),
{
    lemma_after_add(host, cfg, i);
}

/// Routing only: after adding a configuration, the only domain on its link is
/// the configuration's own, and it is not used as a search suffix.
pub proof fn lemma_add_routes_only_its_domain(
    host: Map<i32, LinkSettings>,
    cfg: ResolverConfigView,
    i: i32,
)
    ensures
        forall|k: int|
            0 <= k < link_of(after_calls(host, add_plan(cfg, i)), i).domains.len() ==> {
                let d = #[trigger] link_of(after_calls(host, add_plan(cfg, i)), i).domains[k];
                d.0 == cfg.domain && d.1
            },
        link_of(after_calls(host, add_plan(cfg, i)), i).domains.len() == 1,
{
    lemma_after_add(host, cfg, i);
}

/// Adding the same configuration twice leaves the daemon as adding it once.
pub proof fn lemma_add_idempotent(host: Map<i32, LinkSettings>, cfg: ResolverConfigView, i: i32)
    ensures
        after_calls(after_calls(host, add_plan(cfg, i)), add_plan(cfg, i)) == after_calls(
            host,
            add_plan(cfg, i),
        ),
{
    lemma_after_add(host, cfg, i);
    lemma_after_add(host.insert(i, installed(cfg)), cfg, i);
    assert(host.insert(i, installed(cfg)).insert(i, installed(cfg)) =~= host.insert(
        i,
        installed(cfg),
    ));
}

/// Adding a second configuration on the same link replaces the first one
/// entirely: the link carries only what the second installs.
pub proof fn lemma_add_replaces(
    host: Map<i32, LinkSettings>,
    first: ResolverConfigView,
    second: ResolverConfigView,
    i: i32,
)
    ensures
        after_calls(after_calls(host, add_plan(first, i)), add_plan(second, i)) == after_calls(
            host,
            add_plan(second, i),
        ),
{
    lemma_after_add(host, first, i);
    lemma_after_add(host.insert(i, installed(first)), second, i);
    lemma_after_add(host, second, i);
    assert(host.insert(i, installed(first)).insert(i, installed(second)) =~= host.insert(
        i,
        installed(second),
    ));
}

/// Removing a configuration leaves its link clean and every other link as it was.
pub proof fn lemma_remove_cleans(host: Map<i32, LinkSettings>, i: i32)
    ensures
        link_of(after_calls(host, remove_plan(i)), i) == clean_link(),
        forall|j: i32| j != i ==> link_of(after_calls(host, remove_plan(i)), j) == link_of(host, j),
{
    lemma_after_remove(host, i);
}

/// Adding then removing a configuration on a link that carried no per-link
/// settings leaves every link as it was before the add.
pub proof fn lemma_add_then_remove(host: Map<i32, LinkSettings>, cfg: ResolverConfigView, i: i32)
    requires
        link_of(host, i) == clean_link(),
    ensures
        forall|j: i32|
            link_of(after_calls(after_calls(host, add_plan(cfg, i)), remove_plan(i)), j)
                == link_of(host, j),
{
    lemma_after_add(host, cfg, i);
    lemma_after_remove(host.insert(i, installed(cfg)), i);
}

} // verus!
