//! PROXY-protocol headers (v1 text, v2 binary) that tell the backend the
//! true client address.
use vstd::prelude::*;

use crate::addr::{
    dec_text, groups6, hex_text, ip_text, ipv4_text, is_v4_mapped, join_groups, longest_zero_start,
    low_v4, octet4, push_decimal, push_ip, zero_run, IpAddress, SocketAddress,
};
use crate::config::HAProxyVersion;

verus! {

/// Why a PROXY header could not be built.
#[derive(Clone, Copy, Debug, PartialEq, Eq, Structural)]
pub enum ProxyError {
    /// Source and destination are not of the same address family.
    FamilyMismatch,
}

/// Whether two addresses are of the same family.
pub open spec fn same_family(a: SocketAddress, b: SocketAddress) -> bool {
    match (a.ip, b.ip) {
        (IpAddress::V4(_), IpAddress::V4(_)) => true,
        (IpAddress::V6(_), IpAddress::V6(_)) => true,
        _ => false,
    }
}

/// `"PROXY TCP4 "` or `"PROXY TCP6 "`, by the family of `a`.
pub open spec fn v1_prefix(a: SocketAddress) -> Seq<u8> {
    seq![80u8, 82u8, 79u8, 88u8, 89u8, 32u8, 84u8, 67u8, 80u8]
        + seq![if a.ip is V4 { 52u8 } else { 54u8 }, 32u8]
}

/// The v1 header:
/// `PROXY TCP<4|6> <src_ip> <dst_ip> <src_port> <dst_port>\r\n`.
pub open spec fn proxy_v1(src: SocketAddress, dst: SocketAddress) -> Seq<u8> {
    v1_prefix(src) + ip_text(src.ip) + seq![32u8] + ip_text(dst.ip) + seq![32u8]
        + dec_text(src.port as nat) + seq![32u8] + dec_text(dst.port as nat) + seq![13u8, 10u8]
}

/// The twelve signature bytes that open a v2 header.
pub open spec fn v2_signature() -> Seq<u8> {
    seq![0x0Du8, 0x0Au8, 0x0Du8, 0x0Au8, 0x00u8, 0x0Du8, 0x0Au8, 0x51u8, 0x55u8, 0x49u8, 0x54u8, 0x0Au8]
}

/// Big-endian bytes of a 16-bit value.
pub open spec fn be16(x: u16) -> Seq<u8> {
    seq![(x >> 8u16) as u8, x as u8]
}

/// Big-endian bytes of a 32-bit value.
pub open spec fn be32(x: u32) -> Seq<u8> {
    Seq::new(4, |i: int| octet4(x, i))
}

/// Big-endian bytes of a 128-bit value.
pub open spec fn be128(x: u128) -> Seq<u8> {
    Seq::new(16, |i: int| (x >> ((120 - 8 * i) as u32)) as u8)
}

/// Address bytes of an IP address, in network order.
pub open spec fn ip_bytes(ip: IpAddress) -> Seq<u8> {
    match ip {
        IpAddress::V4(x) => be32(x),
        IpAddress::V6(x) => be128(x),
    }
}

/// The v2 header: signature, version/command, family, address-block length,
/// then source and destination addresses and ports.
pub open spec fn proxy_v2(src: SocketAddress, dst: SocketAddress) -> Seq<u8> {
    v2_signature() + (if src.ip is V4 {
        seq![0x21u8, 0x11u8, 0x00u8, 0x0Cu8]
    } else {
        seq![0x21u8, 0x21u8, 0x00u8, 0x24u8]
    }) + ip_bytes(src.ip) + ip_bytes(dst.ip) + be16(src.port) + be16(dst.port)
}

/// The header of the given version.
pub open spec fn proxy_header(version: HAProxyVersion, src: SocketAddress, dst: SocketAddress) -> Seq<u8> {
    match version {
        HAProxyVersion::V1 => proxy_v1(src, dst),
        HAProxyVersion::V2 => proxy_v2(src, dst),
    }
}

fn family_matches(a: &SocketAddress, b: &SocketAddress) -> (r: bool)
    ensures
        r == same_family(*a, *b),
{
    match (a.ip, b.ip) {
        (IpAddress::V4(_), IpAddress::V4(_)) => true,
        (IpAddress::V6(_), IpAddress::V6(_)) => true,
        _ => false,
    }
}

/// Builds the v1 (text) header for `src` seen from `dst`.
pub fn build_proxy_v1(src: &SocketAddress, dst: &SocketAddress) -> (r: Result<Vec<u8>, ProxyError>)
    ensures
        same_family(*src, *dst) ==> r is Ok && r->Ok_0@ == proxy_v1(*src, *dst),
        !same_family(*src, *dst) ==> r == Err::<Vec<u8>, ProxyError>(ProxyError::FamilyMismatch),
{
    if !family_matches(src, dst) {
        return Err(ProxyError::FamilyMismatch);
    }
    let mut out: Vec<u8> = Vec::new();
    out.push(80u8);
    out.push(82u8);
    out.push(79u8);
    out.push(88u8);
    out.push(89u8);
    out.push(32u8);
    out.push(84u8);
    out.push(67u8);
    out.push(80u8);
    match src.ip {
        IpAddress::V4(_) => out.push(52u8),
        IpAddress::V6(_) => out.push(54u8),
    }
    out.push(32u8);
    push_ip(&mut out, src.ip);
    out.push(32u8);
    push_ip(&mut out, dst.ip);
    out.push(32u8);
    push_decimal(&mut out, src.port as u32);
    out.push(32u8);
    push_decimal(&mut out, dst.port as u32);
    out.push(13u8);
    out.push(10u8);
    proof {
        assert(out@ =~= proxy_v1(*src, *dst));
    }
    Ok(out)
}

fn push_be16(out: &mut Vec<u8>, x: u16)
    ensures
        final(out)@ == old(out)@ + be16(x),
{
    out.push((x >> 8u16) as u8);
    out.push(x as u8);
    proof {
        assert(final(out)@ =~= old(out)@ + be16(x));
    }
}

fn push_ip_bytes(out: &mut Vec<u8>, ip: IpAddress)
    ensures
        final(out)@ == old(out)@ + ip_bytes(ip),
{
    let ghost start = out@;
    match ip {
        IpAddress::V4(x) => {
            let mut i: usize = 0;
            while i < 4
                invariant
                    i <= 4,
                    out@ == start + be32(x).subrange(0, i as int),
                decreases 4 - i,
            {
                let shift: u32 = (24 - 8 * i) as u32;
                out.push((x >> shift) as u8);
                i = i + 1;
                proof {
                    assert(out@ =~= start + be32(x).subrange(0, i as int));
                }
            }
            proof {
                assert(be32(x).subrange(0, 4) =~= be32(x));
            }
        },
        IpAddress::V6(x) => {
            let mut i: usize = 0;
            while i < 16
                invariant
                    i <= 16,
                    out@ == start + be128(x).subrange(0, i as int),
                decreases 16 - i,
            {
                let shift: u32 = (120 - 8 * i) as u32;
                out.push((x >> shift) as u8);
                i = i + 1;
                proof {
                    assert(out@ =~= start + be128(x).subrange(0, i as int));
                }
            }
            proof {
                assert(be128(x).subrange(0, 16) =~= be128(x));
            }
        },
    }
}

/// Builds the v2 (binary) header for `src` seen from `dst`.
pub fn build_proxy_v2(src: &SocketAddress, dst: &SocketAddress) -> (r: Result<Vec<u8>, ProxyError>)
    ensures
        same_family(*src, *dst) ==> r is Ok && r->Ok_0@ == proxy_v2(*src, *dst),
        !same_family(*src, *dst) ==> r == Err::<Vec<u8>, ProxyError>(ProxyError::FamilyMismatch),
{
    if !family_matches(src, dst) {
        return Err(ProxyError::FamilyMismatch);
    }
    let mut out: Vec<u8> = Vec::new();
    out.push(0x0Du8);
    out.push(0x0Au8);
    out.push(0x0Du8);
    out.push(0x0Au8);
    out.push(0x00u8);
    out.push(0x0Du8);
    out.push(0x0Au8);
    out.push(0x51u8);
    out.push(0x55u8);
    out.push(0x49u8);
    out.push(0x54u8);
    out.push(0x0Au8);
    out.push(0x21u8);
    match src.ip {
        IpAddress::V4(_) => {
            out.push(0x11u8);
            push_be16(&mut out, 12u16);
        },
        IpAddress::V6(_) => {
            out.push(0x21u8);
            push_be16(&mut out, 36u16);
        },
    }
    proof {
        assert(((12u16 >> 8u16) as u8) == 0u8 && (12u16 as u8) == 12u8) by (bit_vector);
        assert(((36u16 >> 8u16) as u8) == 0u8 && (36u16 as u8) == 36u8) by (bit_vector);
    }
    push_ip_bytes(&mut out, src.ip);
    push_ip_bytes(&mut out, dst.ip);
    push_be16(&mut out, src.port);
    push_be16(&mut out, dst.port);
    proof {
        assert(out@ =~= proxy_v2(*src, *dst));
    }
    Ok(out)
}

/// Builds the header of the given version for `src` (the client) seen from
/// `dst` (the local end of the upstream connection).
pub fn build_proxy_header(version: HAProxyVersion, src: &SocketAddress, dst: &SocketAddress) -> (r: Result<Vec<u8>, ProxyError>)
    ensures
        same_family(*src, *dst) ==> r is Ok && r->Ok_0@ == proxy_header(version, *src, *dst),
        !same_family(*src, *dst) ==> r == Err::<Vec<u8>, ProxyError>(ProxyError::FamilyMismatch),
{
    match version {
        HAProxyVersion::V1 => build_proxy_v1(src, dst),
        HAProxyVersion::V2 => build_proxy_v2(src, dst),
    }
}

/// A non-empty run of ASCII decimal digits.
pub open spec fn is_decimal(s: Seq<u8>) -> bool {
    s.len() > 0 && forall|i: int| 0 <= i < s.len() ==> 48 <= #[trigger] s[i] <= 57
}

/// A byte that may occur in address text: a digit, `a`-`f`, `.` or `:`.
pub open spec fn is_addr_byte(b: u8) -> bool {
    (48 <= b <= 57) || (97 <= b <= 102) || b == 46 || b == 58
}

/// Non-empty address text: no space, no line break.
pub open spec fn is_addr_text(s: Seq<u8>) -> bool {
    s.len() > 0 && forall|i: int| 0 <= i < s.len() ==> is_addr_byte(#[trigger] s[i])
}

proof fn lemma_dec_text(n: nat)
    ensures
        is_decimal(dec_text(n)),
    decreases n,
{
    if n >= 10 {
        lemma_dec_text(n / 10);
    }
}

proof fn lemma_hex_text(n: nat)
    ensures
        is_addr_text(hex_text(n)),
    decreases n,
{
    if n >= 16 {
        lemma_hex_text(n / 16);
    }
}

proof fn lemma_join_groups(g: Seq<u16>)
    ensures
        forall|i: int| 0 <= i < join_groups(g).len() ==> is_addr_byte(#[trigger] join_groups(g)[i]),
    decreases g.len(),
{
    if g.len() == 1 {
        lemma_hex_text(g[0] as nat);
    } else if g.len() > 1 {
        lemma_join_groups(g.drop_last());
        lemma_hex_text(g.last() as nat);
        let a = join_groups(g.drop_last());
        let h = hex_text(g.last() as nat);
        let t = a + seq![58u8] + h;
        assert(join_groups(g) == t);
        assert forall|i: int| 0 <= i < t.len() implies is_addr_byte(#[trigger] t[i]) by {
            if i < a.len() {
                assert(t[i] == a[i]);
            } else if i == a.len() {
                assert(t[i] == 58u8);
            } else {
                assert(t[i] == h[i - a.len() - 1]);
            }
        }
    }
}

proof fn lemma_ipv4_text(x: u32)
    ensures
        is_addr_text(ipv4_text(x)),
{
    lemma_dec_text(octet4(x, 0) as nat);
    lemma_dec_text(octet4(x, 1) as nat);
    lemma_dec_text(octet4(x, 2) as nat);
    lemma_dec_text(octet4(x, 3) as nat);
}

proof fn lemma_ip_text(ip: IpAddress)
    ensures
        is_addr_text(ip_text(ip)),
{
    match ip {
        IpAddress::V4(x) => lemma_ipv4_text(x),
        IpAddress::V6(x) => {
            let g = groups6(x);
            let b = longest_zero_start(g, 8);
            let len = zero_run(g, b);
            lemma_ipv4_text(low_v4(x));
            lemma_join_groups(g);
            lemma_join_groups(g.subrange(0, b));
            lemma_join_groups(g.subrange(b + len, 8));
            if !is_v4_mapped(x) && len <= 1 {
                assert(g.len() == 8);
                assert(join_groups(g) == join_groups(g.drop_last()) + seq![58u8] + hex_text(g.last() as nat));
            }
        },
    }
}

/// A v1 header is `PROXY TCP4 ` (IPv4) or `PROXY TCP6 ` (IPv6), the source
/// and destination address texts (non-empty, without spaces or line breaks),
/// the source and destination ports in decimal, single spaces between the
/// fields, and a closing CRLF.
pub proof fn lemma_proxy_v1_format(src: SocketAddress, dst: SocketAddress)
    requires
        same_family(src, dst),
    ensures
        proxy_v1(src, dst) == v1_prefix(src) + ip_text(src.ip) + seq![32u8] + ip_text(dst.ip)
            + seq![32u8] + dec_text(src.port as nat) + seq![32u8] + dec_text(dst.port as nat)
            + seq![13u8, 10u8],
        v1_prefix(src) =~= seq![80u8, 82u8, 79u8, 88u8, 89u8, 32u8, 84u8, 67u8, 80u8, if src.ip is V4 { 52u8 } else { 54u8 }, 32u8],
        is_addr_text(ip_text(src.ip)),
        is_addr_text(ip_text(dst.ip)),
        is_decimal(dec_text(src.port as nat)),
        is_decimal(dec_text(dst.port as nat)),
{
    lemma_ip_text(src.ip);
    lemma_ip_text(dst.ip);
    lemma_dec_text(src.port as nat);
    lemma_dec_text(dst.port as nat);
}

/// A v2 header is 16 + 12 bytes long for IPv4 and 16 + 36 for IPv6; its
/// bytes 13 to 16 are `21 11 00 0C` or `21 21 00 24`.
pub proof fn lemma_proxy_v2_length(src: SocketAddress, dst: SocketAddress)
    requires
        same_family(src, dst),
    ensures
        src.ip is V4 ==> proxy_v2(src, dst).len() == 16 + 12,
        src.ip is V6 ==> proxy_v2(src, dst).len() == 16 + 36,
        src.ip is V4 ==> proxy_v2(src, dst).subrange(12, 16) =~= seq![0x21u8, 0x11u8, 0x00u8, 0x0Cu8],
        src.ip is V6 ==> proxy_v2(src, dst).subrange(12, 16) =~= seq![0x21u8, 0x21u8, 0x00u8, 0x24u8],
        proxy_v2(src, dst).subrange(0, 12) =~= v2_signature(),
{
}

/// The bytes a session writes upstream before any client byte: nothing when
/// PROXY framing is off, else the header for the client address `src` and
/// the local end `dst` of the upstream connection. On a family mismatch the
/// session is to write nothing and end.
pub fn upstream_prelude(
    enabled: bool,
    version: HAProxyVersion,
    src: &SocketAddress,
    dst: &SocketAddress,
) -> (r: Result<Vec<u8>, ProxyError>)
    ensures
        !enabled ==> r is Ok && r->Ok_0@ == Seq::<u8>::empty(),
        enabled && same_family(*src, *dst) ==> r is Ok && r->Ok_0@ == proxy_header(version, *src, *dst),
        enabled && !same_family(*src, *dst) ==> r == Err::<Vec<u8>, ProxyError>(ProxyError::FamilyMismatch),
{
    if enabled {
        build_proxy_header(version, src, dst)
    } else {
        Ok(Vec::new())
    }
}

} // verus!
