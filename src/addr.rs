//! Socket addresses as plain values, and their canonical text form.
use vstd::prelude::*;

verus! {

/// An IP address; the integer holds the octets in network (big-endian) order.
#[derive(Clone, Copy, Debug, PartialEq, Eq, Structural)]
pub enum IpAddress {
    V4(u32),
    V6(u128),
}

/// An IP address and a port.
#[derive(Clone, Copy, Debug, PartialEq, Eq, Structural)]
pub struct SocketAddress {
    pub ip: IpAddress,
    pub port: u16,
}

/// The `i`-th octet (0 = most significant) of an IPv4 address.
pub open spec fn octet4(x: u32, i: int) -> u8 {
    (x >> ((24 - 8 * i) as u32)) as u8
}

/// The `i`-th 16-bit group (0 = most significant) of an IPv6 address.
pub open spec fn group6(x: u128, i: int) -> u16 {
    (x >> ((112 - 16 * i) as u32)) as u16
}

/// The eight groups of an IPv6 address, most significant first.
pub open spec fn groups6(x: u128) -> Seq<u16> {
    Seq::new(8, |i: int| group6(x, i))
}

/// ASCII digit for `d < 16`, lower-case for hexadecimal digits.
pub open spec fn digit_char(d: nat) -> u8 {
    if d < 10 {
        (48 + d) as u8
    } else {
        (87 + d) as u8
    }
}

/// Decimal text of `n`, without leading zeros.
pub open spec fn dec_text(n: nat) -> Seq<u8>
    decreases n,
{
    if n < 10 {
        seq![digit_char(n)]
    } else {
        dec_text(n / 10).push(digit_char(n % 10))
    }
}

/// Lower-case hexadecimal text of `n`, without leading zeros.
pub open spec fn hex_text(n: nat) -> Seq<u8>
    decreases n,
{
    if n < 16 {
        seq![digit_char(n)]
    } else {
        hex_text(n / 16).push(digit_char(n % 16))
    }
}

/// Dotted-decimal text of an IPv4 address (`192.0.2.1`).
pub open spec fn ipv4_text(x: u32) -> Seq<u8> {
    dec_text(octet4(x, 0) as nat) + seq![46u8] + dec_text(octet4(x, 1) as nat) + seq![46u8]
        + dec_text(octet4(x, 2) as nat) + seq![46u8] + dec_text(octet4(x, 3) as nat)
}

/// Hexadecimal groups of `g`, separated by colons.
pub open spec fn join_groups(g: Seq<u16>) -> Seq<u8>
    decreases g.len(),
{
    if g.len() == 0 {
        seq![]
    } else if g.len() == 1 {
        hex_text(g[0] as nat)
    } else {
        join_groups(g.drop_last()) + seq![58u8] + hex_text(g.last() as nat)
    }
}

/// Number of consecutive zero groups of `g` starting at index `i`.
pub open spec fn zero_run(g: Seq<u16>, i: int) -> nat
    decreases g.len() - i,
{
    if i < 0 || i >= g.len() || g[i] != 0 {
        0
    } else {
        1 + zero_run(g, i + 1)
    }
}

/// Start of the longest run of zero groups among the starts before `n`;
/// the earliest start wins a tie.
pub open spec fn longest_zero_start(g: Seq<u16>, n: nat) -> int
    decreases n,
{
    if n == 0 {
        0
    } else {
        let b = longest_zero_start(g, (n - 1) as nat);
        if zero_run(g, n - 1) > zero_run(g, b) {
            n - 1
        } else {
            b
        }
    }
}

/// Whether an IPv6 address is an IPv4-mapped address (`::ffff:a.b.c.d`).
pub open spec fn is_v4_mapped(x: u128) -> bool {
    x >> 32u32 == 0xffffu128
}

/// The IPv4 address carried in the low 32 bits of an IPv6 address.
pub open spec fn low_v4(x: u128) -> u32 {
    x as u32
}

/// Canonical IPv6 text: IPv4-mapped addresses as `::ffff:a.b.c.d`; otherwise
/// lower-case groups, with the longest run of two or more zero groups (the
/// first, on a tie) written as `::`.
pub open spec fn ipv6_text(x: u128) -> Seq<u8> {
    let g = groups6(x);
    let b = longest_zero_start(g, 8);
    let len = zero_run(g, b);
    if is_v4_mapped(x) {
        seq![58u8, 58u8, 102u8, 102u8, 102u8, 102u8, 58u8] + ipv4_text(low_v4(x))
    } else if len > 1 {
        join_groups(g.subrange(0, b)) + seq![58u8, 58u8] + join_groups(g.subrange(b + len, 8))
    } else {
        join_groups(g)
    }
}

/// Text of an IP address.
pub open spec fn ip_text(ip: IpAddress) -> Seq<u8> {
    match ip {
        IpAddress::V4(x) => ipv4_text(x),
        IpAddress::V6(x) => ipv6_text(x),
    }
}

/// Appends the decimal text of `n`.
pub fn push_decimal(out: &mut Vec<u8>, n: u32)
    ensures
        final(out)@ == old(out)@ + dec_text(n as nat),
    decreases n,
{
    if n >= 10 {
        push_decimal(out, n / 10);
    }
    out.push((48 + n % 10) as u8);
    proof {
        assert(old(out)@ + dec_text(n as nat) =~= out@);
    }
}

/// Appends the lower-case hexadecimal text of `n`.
pub fn push_hex(out: &mut Vec<u8>, n: u32)
    ensures
        final(out)@ == old(out)@ + hex_text(n as nat),
    decreases n,
{
    if n >= 16 {
        push_hex(out, n / 16);
    }
    let d: u32 = n % 16;
    if d < 10 {
        out.push((48 + d) as u8);
    } else {
        out.push((87 + d) as u8);
    }
    proof {
        assert(old(out)@ + hex_text(n as nat) =~= out@);
    }
}

/// Appends the dotted-decimal text of an IPv4 address.
pub fn push_ipv4(out: &mut Vec<u8>, x: u32)
    ensures
        final(out)@ == old(out)@ + ipv4_text(x),
{
    let ghost start = out@;
    push_decimal(out, ((x >> 24u32) as u8) as u32);
    out.push(46u8);
    push_decimal(out, ((x >> 16u32) as u8) as u32);
    out.push(46u8);
    push_decimal(out, ((x >> 8u32) as u8) as u32);
    out.push(46u8);
    push_decimal(out, ((x >> 0u32) as u8) as u32);
    proof {
        assert(start + ipv4_text(x) =~= out@);
    }
}

/// The eight groups of an IPv6 address.
fn groups_of(x: u128) -> (g: Vec<u16>)
    ensures
        g@ == groups6(x),
{
    let mut g: Vec<u16> = Vec::new();
    let mut i: usize = 0;
    while i < 8
        invariant
            i <= 8,
            g@ == groups6(x).subrange(0, i as int),
        decreases 8 - i,
    {
        let shift: u32 = (112 - 16 * i) as u32;
        g.push((x >> shift) as u16);
        i = i + 1;
        proof {
            assert(g@ =~= groups6(x).subrange(0, i as int));
        }
    }
    proof {
        assert(g@ =~= groups6(x));
    }
    g
}

/// Number of consecutive zero groups starting at `i`.
fn zero_run_at(g: &Vec<u16>, i: usize) -> (r: usize)
    requires
        i <= g@.len(),
    ensures
        r == zero_run(g@, i as int),
{
    let mut j: usize = i;
    while j < g.len() && g[j] == 0
        invariant
            i <= j <= g@.len(),
            zero_run(g@, i as int) == (j - i) + zero_run(g@, j as int),
        decreases g@.len() - j,
    {
        j = j + 1;
    }
    j - i
}

/// Start and length of the longest run of zero groups (the first, on a tie).
fn longest_zero_run(g: &Vec<u16>) -> (r: (usize, usize))
    requires
        g@.len() == 8,
    ensures
        r.0 == longest_zero_start(g@, 8),
        r.1 == zero_run(g@, r.0 as int),
{
    let mut best: usize = 0;
    let mut best_len: usize = zero_run_at(g, 0);
    let mut i: usize = 0;
    while i < 8
        invariant
            i <= 8,
            g@.len() == 8,
            best < 8,
            best as int == longest_zero_start(g@, i as nat),
            best_len == zero_run(g@, best as int),
        decreases 8 - i,
    {
        let len = zero_run_at(g, i);
        if len > best_len {
            best = i;
            best_len = len;
        }
        i = i + 1;
    }
    (best, best_len)
}

/// Appends the groups `g[lo..hi]` in hexadecimal, separated by colons.
fn push_groups(out: &mut Vec<u8>, g: &Vec<u16>, lo: usize, hi: usize)
    requires
        lo <= hi <= g@.len(),
    ensures
        final(out)@ == old(out)@ + join_groups(g@.subrange(lo as int, hi as int)),
{
    let ghost start = out@;
    let mut i: usize = lo;
    while i < hi
        invariant
            lo <= i <= hi <= g@.len(),
            out@ == start + join_groups(g@.subrange(lo as int, i as int)),
        decreases hi - i,
    {
        let ghost before = out@;
        if i > lo {
            out.push(58u8);
        }
        push_hex(out, g[i] as u32);
        proof {
            let prev = g@.subrange(lo as int, i as int);
            let next = g@.subrange(lo as int, i + 1);
            assert(next.drop_last() =~= prev);
            assert(next.last() == g@[i as int]);
            if i == lo {
                assert(prev.len() == 0);
                assert(join_groups(prev) =~= seq![]);
            }
            assert(out@ =~= start + join_groups(next));
        }
        i = i + 1;
    }
}

/// Appends the canonical text of an IPv6 address.
pub fn push_ipv6(out: &mut Vec<u8>, x: u128)
    ensures
        final(out)@ == old(out)@ + ipv6_text(x),
{
    let ghost start = out@;
    if x >> 32u32 == 0xffffu128 {
        out.push(58u8);
        out.push(58u8);
        out.push(102u8);
        out.push(102u8);
        out.push(102u8);
        out.push(102u8);
        out.push(58u8);
        push_ipv4(out, x as u32);
        proof {
            assert(out@ =~= start + ipv6_text(x));
        }
        return;
    }
    let g = groups_of(x);
    let (b, len) = longest_zero_run(&g);
    if len > 1 {
        proof {
            lemma_zero_run_bound(g@, b as int);
        }
        push_groups(out, &g, 0, b);
        out.push(58u8);
        out.push(58u8);
        push_groups(out, &g, b + len, 8);
    } else {
        push_groups(out, &g, 0, 8);
        proof {
            assert(g@.subrange(0, 8) =~= g@);
        }
    }
    proof {
        assert(out@ =~= start + ipv6_text(x));
    }
}

proof fn lemma_zero_run_bound(g: Seq<u16>, i: int)
    requires
        0 <= i <= g.len(),
    ensures
        i + zero_run(g, i) <= g.len(),
    decreases g.len() - i,
{
    if i < g.len() && g[i] == 0 {
        lemma_zero_run_bound(g, i + 1);
    }
}

/// Appends the text of an IP address.
pub fn push_ip(out: &mut Vec<u8>, ip: IpAddress)
    ensures
        final(out)@ == old(out)@ + ip_text(ip),
{
    match ip {
        IpAddress::V4(x) => push_ipv4(out, x),
        IpAddress::V6(x) => push_ipv6(out, x),
    }
}

} // verus!
