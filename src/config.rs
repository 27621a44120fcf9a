use vstd::prelude::*;

verus! {

/// An IP address as its raw octets in network order.
#[derive(Clone, Copy, Debug, PartialEq, Eq)]
pub enum IpAddress {
    V4([u8; 4]),
    V6([u8; 16]),
}

/// A resolver endpoint: an address and a port.
#[derive(Clone, Copy, Debug, PartialEq, Eq)]
pub struct SocketAddress {
    pub ip: IpAddress,
    pub port: u16,
}

/// A request to route the names under `domain` to `resolvers`, in order, over `interface`.
#[derive(Clone, Debug, PartialEq, Eq)]
pub struct ResolverConfig {
    pub interface: String,
    pub domain: String,
    pub resolvers: Vec<SocketAddress>,
}

/// `ResolverConfig` with its text as sequences of characters.
pub ghost struct ResolverConfigView {
    pub interface: Seq<char>,
    pub domain: Seq<char>,
    pub resolvers: Seq<SocketAddress>,
}

impl View for ResolverConfig {
    type V = ResolverConfigView;

    open spec fn view(&self) -> ResolverConfigView {
        ResolverConfigView {
            interface: self.interface@,
            domain: self.domain@,
            resolvers: self.resolvers@,
        }
    }
}

impl ResolverConfig {
    /// A copy of this configuration.
    pub fn duplicate(&self) -> (r: ResolverConfig)
        ensures
            r@ == self@,
    {
        let mut resolvers: Vec<SocketAddress> = Vec::new();
        let mut i: usize = 0;
        while i < self.resolvers.len()
            invariant
                i <= self.resolvers@.len(),
                resolvers@ == self.resolvers@.take(i as int),
            decreases self.resolvers@.len() - i,
        {
            resolvers.push(self.resolvers[i]);
            i = i + 1;
            assert(resolvers@ =~= self.resolvers@.take(i as int));
        }
        assert(self.resolvers@.take(self.resolvers@.len() as int) =~= self.resolvers@);
        ResolverConfig {
            interface: self.interface.clone(),
            domain: self.domain.clone(),
            resolvers,
        }
    }
}

} // verus!
