//! Split-horizon DNS configuration: names under one suffix are routed to chosen
//! resolvers on one network link, all other names keep the system's default path.

use vstd::prelude::*;

pub mod config;
pub mod encode;
pub mod error;
pub mod ifindex;
pub mod link;
pub mod session;

pub use config::{IpAddress, ResolverConfig, SocketAddress};
pub use encode::{encode_servers, socketaddr_to_systemd_format, AF_INET, AF_INET6};
pub use error::DnsError;
pub use ifindex::parse_ifindex;
pub use link::{add_calls, remove_calls, DaemonCall};
pub use session::{Action, Event, Failure, Operation, Session, Stage};

verus! {

/// The adapter for hosts whose resolver daemon is configured per link.
pub struct LinuxDns;

} // verus!
