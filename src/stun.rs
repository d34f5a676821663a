//! STUN (RFC 5389) Binding Request encoding and XOR-MAPPED-ADDRESS decoding,
//! over TCP, IPv4 only.
use vstd::prelude::*;

use crate::addr::{IpAddress, SocketAddress};
use crate::proxy::{be16, be32};

verus! {

/// Magic cookie carried in every STUN message header.
pub const MAGIC_COOKIE: u32 = 0x2112A442;

/// Attribute type of XOR-MAPPED-ADDRESS.
pub const ATTR_XOR_MAPPED_ADDRESS: u16 = 0x0020;

/// High 16 bits of the magic cookie, the mask of the mapped port.
pub const COOKIE_HIGH: u16 = 0x2112;

/// Length of a STUN message header.
pub const HEADER_LEN: usize = 20;

/// Why a Binding Response could not be decoded.
#[derive(Clone, Copy, Debug, PartialEq, Eq, Structural)]
pub enum StunError {
    /// The message is shorter than a STUN header.
    TooShort,
    /// No XOR-MAPPED-ADDRESS attribute was found.
    NotFound,
    /// The XOR-MAPPED-ADDRESS attribute runs past the end of the message.
    Truncated,
}

/// A Binding Request: type 0x0001, length 0, the magic cookie, then the
/// transaction ID.
pub open spec fn binding_request_spec(tid: Seq<u8>) -> Seq<u8> {
    seq![0x00u8, 0x01u8, 0x00u8, 0x00u8] + be32(MAGIC_COOKIE) + tid
}

/// The big-endian 16-bit value at `i`.
pub open spec fn read16(b: Seq<u8>, i: int) -> u16 {
    ((b[i] as u16) << 8u16) | (b[i + 1] as u16)
}

/// The big-endian 32-bit value at `i`.
pub open spec fn read32(b: Seq<u8>, i: int) -> u32 {
    ((b[i] as u32) << 24u32) | ((b[i + 1] as u32) << 16u32) | ((b[i + 2] as u32) << 8u32) | (b[i + 3] as u32)
}

/// Offset of the payload of the first XOR-MAPPED-ADDRESS attribute, scanning
/// type-length-value attributes from `pos` (lengths are not padded).
pub open spec fn find_mapped(b: Seq<u8>, pos: nat) -> Option<nat>
    decreases b.len() - pos,
{
    if pos + 4 > b.len() {
        None
    } else if read16(b, pos as int) == ATTR_XOR_MAPPED_ADDRESS {
        Some(pos + 4)
    } else if pos + 4 + read16(b, pos + 2int) > b.len() {
        None
    } else {
        find_mapped(b, pos + 4 + read16(b, pos + 2int) as nat)
    }
}

/// The address carried by an XOR-MAPPED-ADDRESS payload at `p`: port and
/// IPv4 address XORed with the magic cookie.
pub open spec fn mapped_at(b: Seq<u8>, p: int) -> SocketAddress {
    SocketAddress {
        ip: IpAddress::V4(read32(b, p + 4) ^ MAGIC_COOKIE),
        port: read16(b, p + 2) ^ COOKIE_HIGH,
    }
}

/// What decoding a Binding Response gives.
pub open spec fn parse_spec(b: Seq<u8>) -> Result<SocketAddress, StunError> {
    if b.len() < 20 {
        Err(StunError::TooShort)
    } else {
        match find_mapped(b, 20) {
            None => Err(StunError::NotFound),
            Some(p) => if p + 8 > b.len() {
                Err(StunError::Truncated)
            } else {
                Ok(mapped_at(b, p as int))
            },
        }
    }
}

/// Encodes a Binding Request with the given transaction ID.
pub fn binding_request(tid: [u8; 12]) -> (r: Vec<u8>)
    ensures
        r@ == binding_request_spec(tid@),
        r@.len() == 20,
{
    let mut out: Vec<u8> = Vec::new();
    out.push(0x00u8);
    out.push(0x01u8);
    out.push(0x00u8);
    out.push(0x00u8);
    out.push(0x21u8);
    out.push(0x12u8);
    out.push(0xA4u8);
    out.push(0x42u8);
    let mut i: usize = 0;
    while i < 12
        invariant
            i <= 12,
            out@ == seq![0x00u8, 0x01u8, 0x00u8, 0x00u8, 0x21u8, 0x12u8, 0xA4u8, 0x42u8] + tid@.subrange(0, i as int),
        decreases 12 - i,
    {
        out.push(tid[i]);
        i = i + 1;
        proof {
            assert(out@ =~= seq![0x00u8, 0x01u8, 0x00u8, 0x00u8, 0x21u8, 0x12u8, 0xA4u8, 0x42u8] + tid@.subrange(0, i as int));
        }
    }
    proof {
        assert(((MAGIC_COOKIE >> 24u32) as u8) == 0x21u8) by (bit_vector);
        assert(((MAGIC_COOKIE >> 16u32) as u8) == 0x12u8) by (bit_vector);
        assert(((MAGIC_COOKIE >> 8u32) as u8) == 0xA4u8) by (bit_vector);
        assert(((MAGIC_COOKIE >> 0u32) as u8) == 0x42u8) by (bit_vector);
        assert(tid@.subrange(0, 12) =~= tid@);
        assert(out@ =~= binding_request_spec(tid@));
    }
    out
}

fn read16_at(b: &[u8], i: usize) -> (r: u16)
    requires
        i + 2 <= b@.len(),
    ensures
        r == read16(b@, i as int),
{
    ((b[i] as u16) << 8u16) | (b[i + 1] as u16)
}

/// Decodes the XOR-MAPPED-ADDRESS of a Binding Response.
pub fn parse_addr(buf: &[u8]) -> (r: Result<SocketAddress, StunError>)
    ensures
        r == parse_spec(buf@),
{
    if buf.len() < HEADER_LEN {
        return Err(StunError::TooShort);
    }
    let mut pos: usize = HEADER_LEN;
    while pos <= buf.len() && buf.len() - pos >= 4
        invariant
            20 <= pos,
            buf@.len() >= 20,
            find_mapped(buf@, 20) == find_mapped(buf@, pos as nat),
        decreases buf@.len() - pos,
    {
        let attr_type = read16_at(buf, pos);
        let attr_len = read16_at(buf, pos + 2) as usize;
        pos = pos + 4;
        if attr_type == ATTR_XOR_MAPPED_ADDRESS {
            if buf.len() - pos < 8 {
                return Err(StunError::Truncated);
            }
            let x_port = read16_at(buf, pos + 2);
            let x_ip: u32 = ((buf[pos + 4] as u32) << 24u32) | ((buf[pos + 5] as u32) << 16u32)
                | ((buf[pos + 6] as u32) << 8u32) | (buf[pos + 7] as u32);
            let port = x_port ^ COOKIE_HIGH;
            let ip = x_ip ^ MAGIC_COOKIE;
            return Ok(SocketAddress { ip: IpAddress::V4(ip), port });
        }
        if attr_len > buf.len() - pos {
            return Err(StunError::NotFound);
        }
        pos = pos + attr_len;
    }
    Err(StunError::NotFound)
}

/// An XOR-MAPPED-ADDRESS attribute (IPv4) carrying `ip:port`.
pub open spec fn xor_mapped_attr(ip: u32, port: u16) -> Seq<u8> {
    be16(ATTR_XOR_MAPPED_ADDRESS) + be16(8) + seq![0x00u8, 0x01u8] + be16(port ^ COOKIE_HIGH) + be32(
        ip ^ MAGIC_COOKIE,
    )
}

/// Decoding gives back the address that was encoded: a response whose first
/// attribute is an XOR-MAPPED-ADDRESS for `ip:port` decodes to `ip:port`,
/// whatever the header and whatever follows the attribute.
pub proof fn lemma_parse_round_trip(header: Seq<u8>, ip: u32, port: u16, rest: Seq<u8>)
    requires
        header.len() == 20,
    ensures
        parse_spec(header + xor_mapped_attr(ip, port) + rest) == Ok::<SocketAddress, StunError>(
            SocketAddress { ip: IpAddress::V4(ip), port },
        ),
{
    let a = xor_mapped_attr(ip, port);
    let b = header + a + rest;
    assert(a.len() == 12);
    assert forall|i: int| 0 <= i < 12 implies b[20 + i] == #[trigger] a[i] by {
        assert(b[20 + i] == (header + a)[20 + i]);
    }
    let t: u16 = ATTR_XOR_MAPPED_ADDRESS;
    let xp: u16 = port ^ COOKIE_HIGH;
    let xi: u32 = ip ^ MAGIC_COOKIE;
    assert(((((t >> 8u16) as u8) as u16) << 8u16) | (((t as u8) as u16)) == t) by (bit_vector);
    assert(((((xp >> 8u16) as u8) as u16) << 8u16) | (((xp as u8) as u16)) == xp) by (bit_vector);
    assert((((xi >> 24u32) as u8 as u32) << 24u32) | (((xi >> 16u32) as u8 as u32) << 16u32) | (
    ((xi >> 8u32) as u8 as u32) << 8u32) | ((xi >> 0u32) as u8 as u32) == xi) by (bit_vector);
    assert((xp ^ COOKIE_HIGH) == port) by (bit_vector)
        requires
            xp == port ^ COOKIE_HIGH,
    ;
    assert((xi ^ MAGIC_COOKIE) == ip) by (bit_vector)
        requires
            xi == ip ^ MAGIC_COOKIE,
    ;
    assert(read16(b, 20) == t);
    assert(read16(b, 26) == xp);
    assert(read32(b, 28) == xi);
    assert(find_mapped(b, 20) == Some(24nat));
}

} // verus!
