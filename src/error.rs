use vstd::prelude::*;

verus! {

/// The closed set of failures that adding or removing a resolver configuration can end in.
#[derive(Clone, Debug, PartialEq, Eq)]
pub enum DnsError {
    /// A caller-supplied address string is not of the form `ip:port`.
    InvalidNameserver(String, String),
    /// A filesystem read failed.
    Io(String),
    /// The bus or the resolver daemon refused the caller's authority.
    PermissionDenied,
    /// No platform adapter serves this host.
    Unsupported,
    /// The system bus could not be reached.
    IpcConnect(String),
    /// The resolver daemon's manager object is unavailable.
    ManagerProxy(String),
    /// The interface does not exist, or its index is not an integer.
    InterfaceIndex(String, String),
    /// The daemon rejected the per-link servers (or their transport policy).
    SetLinkDns(String),
    /// The daemon rejected the per-link domains.
    SetLinkDomains(String),
    /// The daemon rejected reverting the link.
    RevertLink(String),
    /// Any other platform failure.
    Platform(String),
}

/// `DnsError` with its text as sequences of characters.
pub ghost enum DnsErrorView {
    InvalidNameserver(Seq<char>, Seq<char>),
    Io(Seq<char>),
    PermissionDenied,
    Unsupported,
    IpcConnect(Seq<char>),
    ManagerProxy(Seq<char>),
    InterfaceIndex(Seq<char>, Seq<char>),
    SetLinkDns(Seq<char>),
    SetLinkDomains(Seq<char>),
    RevertLink(Seq<char>),
    Platform(Seq<char>),
}

impl View for DnsError {
    type V = DnsErrorView;

    open spec fn view(&self) -> DnsErrorView {
        match self {
            DnsError::InvalidNameserver(a, d) => DnsErrorView::InvalidNameserver(a@, d@),
            DnsError::Io(d) => DnsErrorView::Io(d@),
            DnsError::PermissionDenied => DnsErrorView::PermissionDenied,
            DnsError::Unsupported => DnsErrorView::Unsupported,
            DnsError::IpcConnect(d) => DnsErrorView::IpcConnect(d@),
            DnsError::ManagerProxy(d) => DnsErrorView::ManagerProxy(d@),
            DnsError::InterfaceIndex(n, d) => DnsErrorView::InterfaceIndex(n@, d@),
            DnsError::SetLinkDns(d) => DnsErrorView::SetLinkDns(d@),
            DnsError::SetLinkDomains(d) => DnsErrorView::SetLinkDomains(d@),
            DnsError::RevertLink(d) => DnsErrorView::RevertLink(d@),
            DnsError::Platform(d) => DnsErrorView::Platform(d@),
        }
    }
}

impl DnsError {
    /// A copy of this error with the same text.
    pub fn duplicate(&self) -> (r: DnsError)
        ensures
            r@ == self@,
    {
        match self {
            DnsError::InvalidNameserver(a, d) => DnsError::InvalidNameserver(a.clone(), d.clone()),
            DnsError::Io(d) => DnsError::Io(d.clone()),
            DnsError::PermissionDenied => DnsError::PermissionDenied,
            DnsError::Unsupported => DnsError::Unsupported,
            DnsError::IpcConnect(d) => DnsError::IpcConnect(d.clone()),
            DnsError::ManagerProxy(d) => DnsError::ManagerProxy(d.clone()),
            DnsError::InterfaceIndex(n, d) => DnsError::InterfaceIndex(n.clone(), d.clone()),
            DnsError::SetLinkDns(d) => DnsError::SetLinkDns(d.clone()),
            DnsError::SetLinkDomains(d) => DnsError::SetLinkDomains(d.clone()),
            DnsError::RevertLink(d) => DnsError::RevertLink(d.clone()),
            DnsError::Platform(d) => DnsError::Platform(d.clone()),
        }
    }
}

} // verus!
