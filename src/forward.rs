//! Decisions of the forwarder: which accepted connection is the system's own
//! heartbeat returning through the NAT, what the heartbeat responder answers,
//! and which resolved address is the upstream target.
use vstd::prelude::*;

use crate::addr::{is_v4_mapped, low_v4, IpAddress, SocketAddress};

verus! {

/// The heartbeat request, `"hbpk"`.
pub open spec fn probe_bytes() -> Seq<u8> {
    seq![0x68u8, 0x62u8, 0x70u8, 0x6Bu8]
}

/// The heartbeat reply, `"hbre"`.
pub open spec fn reply_bytes() -> Seq<u8> {
    seq![0x68u8, 0x62u8, 0x72u8, 0x65u8]
}

/// Where an accepted connection goes.
#[derive(Clone, Copy, Debug, PartialEq, Eq, Structural)]
pub enum Route {
    /// The heartbeat responder.
    Heartbeat,
    /// A player session, forwarded to the backend.
    Player,
}

/// An address with the IPv4-mapped IPv6 prefix stripped.
pub open spec fn canonical_spec(ip: IpAddress) -> IpAddress {
    match ip {
        IpAddress::V6(x) => if is_v4_mapped(x) {
            IpAddress::V4(low_v4(x))
        } else {
            ip
        },
        IpAddress::V4(_) => ip,
    }
}

/// Whether `b` begins with the heartbeat request.
pub open spec fn starts_with_probe(b: Seq<u8>) -> bool {
    b.len() >= 4 && b.subrange(0, 4) == probe_bytes()
}

/// The demultiplexing rule: a connection from the public WAN address whose
/// first bytes are the heartbeat request is the system's own heartbeat;
/// everything else is a player.
pub open spec fn route_spec(peer: IpAddress, wan: IpAddress, first: Seq<u8>) -> Route {
    if canonical_spec(peer) == wan && starts_with_probe(first) {
        Route::Heartbeat
    } else {
        Route::Player
    }
}

/// Strips the IPv4-mapped IPv6 prefix, if any.
pub fn canonical_ip(ip: IpAddress) -> (r: IpAddress)
    ensures
        r == canonical_spec(ip),
{
    match ip {
        IpAddress::V6(x) => {
            if x >> 32u32 == 0xffffu128 {
                IpAddress::V4(x as u32)
            } else {
                ip
            }
        },
        IpAddress::V4(_) => ip,
    }
}

fn is_probe_prefix(b: &[u8]) -> (r: bool)
    ensures
        r == starts_with_probe(b@),
{
    let r = b.len() >= 4 && b[0] == 0x68u8 && b[1] == 0x62u8 && b[2] == 0x70u8 && b[3] == 0x6Bu8;
    proof {
        if b@.len() >= 4 {
            if r {
                assert(b@.subrange(0, 4) =~= probe_bytes());
            } else {
                assert(b@.subrange(0, 4)[0] == b@[0]);
                assert(b@.subrange(0, 4)[3] == b@[3]);
            }
        }
    }
    r
}

/// Routes an accepted connection from `peer`, given the bytes peeked from it
/// (not consumed) and the current public WAN address.
pub fn route_connection(peer: IpAddress, wan: IpAddress, peeked: &[u8]) -> (r: Route)
    ensures
        r == route_spec(peer, wan, peeked@),
{
    if canonical_ip(peer) == wan && is_probe_prefix(peeked) {
        Route::Heartbeat
    } else {
        Route::Player
    }
}

/// A connection from the WAN address that opens with `"hbpk"` reaches the
/// responder; one from the WAN address that opens otherwise reaches the
/// forwarder; one from any other address reaches the forwarder whatever it
/// sends first.
pub proof fn lemma_demux(peer: IpAddress, wan: IpAddress, first: Seq<u8>)
    ensures
        canonical_spec(peer) == wan && starts_with_probe(first) ==> route_spec(peer, wan, first)
            == Route::Heartbeat,
        canonical_spec(peer) == wan && !starts_with_probe(first) ==> route_spec(peer, wan, first)
            == Route::Player,
        canonical_spec(peer) != wan ==> route_spec(peer, wan, first) == Route::Player,
{
}

/// The heartbeat request bytes, `"hbpk"`.
pub fn heartbeat_probe() -> (r: Vec<u8>)
    ensures
        r@ == probe_bytes(),
{
    let r: Vec<u8> = vec![0x68u8, 0x62u8, 0x70u8, 0x6Bu8];
    proof {
        assert(r@ =~= probe_bytes());
    }
    r
}

/// What the responder sends back for a chunk it read: `"hbre"` for exactly
/// `"hbpk"`, nothing for anything else.
pub fn heartbeat_reply(chunk: &[u8]) -> (r: Option<Vec<u8>>)
    ensures
        chunk@ == probe_bytes() ==> r is Some && r->Some_0@ == reply_bytes(),
        chunk@ != probe_bytes() ==> r is None,
{
    if chunk.len() == 4 && is_probe_prefix(chunk) {
        proof {
            assert(chunk@ =~= chunk@.subrange(0, 4));
        }
        let r: Vec<u8> = vec![0x68u8, 0x62u8, 0x72u8, 0x65u8];
        proof {
            assert(r@ =~= reply_bytes());
        }
        Some(r)
    } else {
        proof {
            if chunk@.len() == 4 {
                assert(chunk@ =~= chunk@.subrange(0, 4));
            }
        }
        None
    }
}

/// Whether what the heartbeat client read is a valid reply: its first four
/// bytes are `"hbre"`.
pub fn is_heartbeat_reply(read: &[u8]) -> (r: bool)
    ensures
        r == (read@.len() >= 4 && read@.subrange(0, 4) == reply_bytes()),
{
    let r = read.len() >= 4 && read[0] == 0x68u8 && read[1] == 0x62u8 && read[2] == 0x72u8
        && read[3] == 0x65u8;
    proof {
        if read@.len() >= 4 {
            if r {
                assert(read@.subrange(0, 4) =~= reply_bytes());
            } else {
                assert(read@.subrange(0, 4)[0] == read@[0]);
                assert(read@.subrange(0, 4)[1] == read@[1]);
                assert(read@.subrange(0, 4)[2] == read@[2]);
                assert(read@.subrange(0, 4)[3] == read@[3]);
            }
        }
    }
    r
}

/// Whether an address is of the IPv6 family.
pub open spec fn is_v6(a: SocketAddress) -> bool {
    a.ip is V6
}

/// The first address of the wanted family, if any.
pub open spec fn first_of_family(s: Seq<SocketAddress>, v6: bool) -> Option<SocketAddress>
    decreases s.len(),
{
    if s.len() == 0 {
        None
    } else if is_v6(s[0]) == v6 {
        Some(s[0])
    } else {
        first_of_family(s.drop_first(), v6)
    }
}

/// Picks the first resolved address of the wanted family and gives it the
/// wanted port.
pub fn pick_target(addrs: &Vec<SocketAddress>, v6: bool, port: u16) -> (r: Option<SocketAddress>)
    ensures
        r == (match first_of_family(addrs@, v6) {
            Some(a) => Some(SocketAddress { ip: a.ip, port }),
            None => None,
        }),
{
    let mut i: usize = 0;
    proof {
        assert(addrs@.subrange(0, addrs@.len() as int) =~= addrs@);
    }
    while i < addrs.len()
        invariant
            i <= addrs@.len(),
            first_of_family(addrs@, v6) == first_of_family(addrs@.subrange(i as int, addrs@.len() as int), v6),
        decreases addrs@.len() - i,
    {
        let a = addrs[i];
        proof {
            let rest = addrs@.subrange(i as int, addrs@.len() as int);
            assert(rest[0] == a);
            assert(rest.drop_first() =~= addrs@.subrange(i + 1, addrs@.len() as int));
        }
        let a_v6 = match a.ip {
            IpAddress::V6(_) => true,
            IpAddress::V4(_) => false,
        };
        if a_v6 == v6 {
            return Some(SocketAddress { ip: a.ip, port });
        }
        i = i + 1;
    }
    None
}

} // verus!
