use vstd::prelude::*;
use crate::config::{IpAddress, SocketAddress};

verus! {

/// Address family of IPv4 on the resolver daemon's interface.
pub const AF_INET: i32 = 2;

/// Address family of IPv6 on the resolver daemon's interface.
pub const AF_INET6: i32 = 10;

/// The daemon's form of one resolver: its family and its octets. The port is not carried.
pub open spec fn encoded(addr: SocketAddress) -> (i32, Seq<u8>) {
    match addr.ip {
        IpAddress::V4(o) => (AF_INET, o@),
        IpAddress::V6(o) => (AF_INET6, o@),
    }
}

/// The daemon's form of a list of resolvers, in the same order.
pub open spec fn encoded_all(addrs: Seq<SocketAddress>) -> Seq<(i32, Seq<u8>)> {
    addrs.map_values(|a: SocketAddress| encoded(a))
}

/// The abstract value of a list of encoded servers.
pub open spec fn servers_view(v: Seq<(i32, Vec<u8>)>) -> Seq<(i32, Seq<u8>)> {
    v.map_values(|p: (i32, Vec<u8>)| (p.0, p.1@))
}

/// Encodes one resolver as `(family, octets)`.
pub fn socketaddr_to_systemd_format(addr: SocketAddress) -> (r: (i32, Vec<u8>))
    ensures
        (r.0, r.1@) == encoded(addr),
{
    match addr.ip {
        IpAddress::V4(o) => {
            let mut v: Vec<u8> = Vec::new();
            let mut i: usize = 0;
            while i < 4
                invariant
                    i <= 4,
                    v@ == o@.take(i as int),
                decreases 4 - i,
            {
                v.push(o[i]);
                i = i + 1;
                assert(v@ =~= o@.take(i as int));
            }
            assert(o@.take(4) =~= o@);
            (AF_INET, v)
        },
        IpAddress::V6(o) => {
            let mut v: Vec<u8> = Vec::new();
            let mut i: usize = 0;
            while i < 16
                invariant
                    i <= 16,
                    v@ == o@.take(i as int),
                decreases 16 - i,
            {
                v.push(o[i]);
                i = i + 1;
                assert(v@ =~= o@.take(i as int));
            }
            assert(o@.take(16) =~= o@);
            (AF_INET6, v)
        },
    }
}

/// Encodes every resolver, keeping their order.
pub fn encode_servers(addrs: &Vec<SocketAddress>) -> (r: Vec<(i32, Vec<u8>)>)
    ensures
        servers_view(r@) == encoded_all(addrs@),
{
    let mut r: Vec<(i32, Vec<u8>)> = Vec::new();
    let mut i: usize = 0;
    while i < addrs.len()
        invariant
            i <= addrs@.len(),
            r@.len() == i,
            servers_view(r@) =~= encoded_all(addrs@.take(i as int)),
        decreases addrs@.len() - i,
    {
        let e = socketaddr_to_systemd_format(addrs[i]);
        let ghost before = r@;
        r.push(e);
        proof {
            let next = addrs@.take(i + 1);
            assert forall|j: int| 0 <= j < i + 1 implies servers_view(r@)[j] == encoded_all(next)[j] by {
                if j < i {
                    assert(r@[j] == before[j]);
                    assert(next[j] == addrs@.take(i as int)[j]);
                    assert(servers_view(before)[j] == encoded_all(addrs@.take(i as int))[j]);
                } else {
                    assert(r@[j] == e);
                    assert(next[j] == addrs@[j]);
                }
            }
            assert(servers_view(r@) =~= encoded_all(next));
        }
        i = i + 1;
    }
    assert(addrs@.take(addrs@.len() as int) =~= addrs@);
    r
}

} // verus!
