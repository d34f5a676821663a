use bedrock_hole::addr::{IpAddress, SocketAddress};
use bedrock_hole::proxy::{
    build_proxy_header, build_proxy_v1, build_proxy_v2, upstream_prelude, ProxyError,
};
use bedrock_hole::config::HAProxyVersion;
use bedrock_hole::stun::{binding_request, parse_addr, StunError};

fn v4(a: u8, b: u8, c: u8, d: u8, port: u16) -> SocketAddress {
    let ip = ((a as u32) << 24) | ((b as u32) << 16) | ((c as u32) << 8) | (d as u32);
    SocketAddress { ip: IpAddress::V4(ip), port }
}

fn v6(x: u128, port: u16) -> SocketAddress {
    SocketAddress { ip: IpAddress::V6(x), port }
}

fn text(r: Result<Vec<u8>, ProxyError>) -> String {
    String::from_utf8(r.unwrap()).unwrap()
}

fn response_with(attrs: &[u8]) -> Vec<u8> {
    let mut b = vec![0x01, 0x01, 0x00, attrs.len() as u8, 0x21, 0x12, 0xA4, 0x42];
    b.extend_from_slice(&[0xAA; 12]);
    b.extend_from_slice(attrs);
    b
}

#[test]
fn stun_scenario_response() {
    let buf = response_with(&[0x00, 0x20, 0x00, 0x08, 0x00, 0x01, 0xE1, 0xB4, 0xFE, 0xED, 0xCA, 0xFE]);
    // 0xE1B4 ^ 0x2112 = 49318; 0xFEEDCAFE ^ 0x2112A442 = 0xDFFF6EBC.
    assert_eq!(parse_addr(&buf), Ok(v4(223, 255, 110, 188, 49318)));
}

#[test]
fn stun_round_trip_values() {
    let cases: [(u32, u16); 4] = [(0, 0), (0xFFFF_FFFF, 65535), (0xCB00_7107, 19132), (0x0A00_0001, 1)];
    for (ip, port) in cases {
        let xp = port ^ 0x2112;
        let xi = ip ^ 0x2112_A442;
        let mut attr = vec![0x00, 0x20, 0x00, 0x08, 0x00, 0x01];
        attr.extend_from_slice(&xp.to_be_bytes());
        attr.extend_from_slice(&xi.to_be_bytes());
        attr.extend_from_slice(&[0u8; 7]);
        let buf = response_with(&attr);
        assert_eq!(parse_addr(&buf), Ok(SocketAddress { ip: IpAddress::V4(ip), port }));
    }
}

#[test]
fn stun_skips_other_attributes() {
    let buf = response_with(&[
        0x80, 0x22, 0x00, 0x03, b'a', b'b', b'c', 0x00, 0x20, 0x00, 0x08, 0x00, 0x01, 0x21, 0x13, 0x21,
        0x12, 0xA4, 0x43,
    ]);
    assert_eq!(parse_addr(&buf), Ok(v4(0, 0, 0, 1, 1)));
}

#[test]
fn stun_too_short() {
    assert_eq!(parse_addr(&[0u8; 19]), Err(StunError::TooShort));
    assert_eq!(parse_addr(&[]), Err(StunError::TooShort));
}

#[test]
fn stun_not_found() {
    assert_eq!(parse_addr(&[0u8; 20]), Err(StunError::NotFound));
    let buf = response_with(&[0x80, 0x22, 0x00, 0x04, 1, 2, 3, 4]);
    assert_eq!(parse_addr(&buf), Err(StunError::NotFound));
    let buf = response_with(&[0x80, 0x22, 0x00, 0x09, 1, 2, 3, 4]);
    assert_eq!(parse_addr(&buf), Err(StunError::NotFound));
}

#[test]
fn stun_truncated() {
    let buf = response_with(&[0x00, 0x20, 0x00, 0x08, 0x00, 0x01, 0xE1, 0xB4, 0xFE]);
    assert_eq!(parse_addr(&buf), Err(StunError::Truncated));
}

#[test]
fn stun_binding_request() {
    let r = binding_request([0xAA; 12]);
    let mut want = vec![0x00, 0x01, 0x00, 0x00, 0x21, 0x12, 0xA4, 0x42];
    want.extend_from_slice(&[0xAA; 12]);
    assert_eq!(r, want);
    let tid: [u8; 12] = [1, 2, 3, 4, 5, 6, 7, 8, 9, 10, 11, 12];
    assert_eq!(&binding_request(tid)[8..], &tid[..]);
}

#[test]
fn proxy_v1_scenario() {
    let r = build_proxy_v1(&v4(192, 0, 2, 1, 12345), &v4(198, 51, 100, 2, 25565));
    assert_eq!(text(r), "PROXY TCP4 192.0.2.1 198.51.100.2 12345 25565\r\n");
}

#[test]
fn proxy_v1_ipv6_text() {
    let r = build_proxy_v1(&v6(1, 0), &v6(0x2001_0db8_0000_0000_0000_0000_0000_0001, 65535));
    assert_eq!(text(r), "PROXY TCP6 ::1 2001:db8::1 0 65535\r\n");
    let r = build_proxy_v1(&v6(0xffff_c000_0201, 5), &v6(0, 6));
    assert_eq!(text(r), "PROXY TCP6 ::ffff:192.0.2.1 :: 5 6\r\n");
    let r = build_proxy_v1(
        &v6(0x0001_0000_0000_0001_0000_0000_0000_0001, 1),
        &v6(0xfe80_0000_0000_0000_0000_0000_0000_abcd, 2),
    );
    assert_eq!(text(r), "PROXY TCP6 1:0:0:1::1 fe80::abcd 1 2\r\n");
    let r = build_proxy_v1(
        &v6(0x0001_0002_0003_0004_0005_0006_0007_0008, 1),
        &v6(0x0001_0000_0002_0003_0004_0005_0006_0007, 2),
    );
    assert_eq!(text(r), "PROXY TCP6 1:2:3:4:5:6:7:8 1:0:2:3:4:5:6:7 1 2\r\n");
}

#[test]
fn proxy_v1_format_shape() {
    let s = text(build_proxy_v1(&v4(0, 0, 0, 0, 0), &v4(255, 255, 255, 255, 65535)));
    assert_eq!(s, "PROXY TCP4 0.0.0.0 255.255.255.255 0 65535\r\n");
    let fields: Vec<&str> = s.trim_end_matches("\r\n").split(' ').collect();
    assert_eq!(fields.len(), 6);
    assert!(fields[4].bytes().all(|b| b.is_ascii_digit()));
    assert!(fields[5].bytes().all(|b| b.is_ascii_digit()));
}

#[test]
fn proxy_v2_scenario() {
    let r = build_proxy_v2(&v4(10, 0, 0, 1, 1000), &v4(10, 0, 0, 2, 2000)).unwrap();
    let want: Vec<u8> = vec![
        0x0D, 0x0A, 0x0D, 0x0A, 0x00, 0x0D, 0x0A, 0x51, 0x55, 0x49, 0x54, 0x0A, 0x21, 0x11, 0x00, 0x0C,
        0x0A, 0x00, 0x00, 0x01, 0x0A, 0x00, 0x00, 0x02, 0x03, 0xE8, 0x07, 0xD0,
    ];
    assert_eq!(r, want);
}

#[test]
fn proxy_v2_ipv6_length() {
    let r = build_proxy_v2(&v6(1, 443), &v6(0x2001_0db8 << 96, 80)).unwrap();
    assert_eq!(r.len(), 16 + 36);
    assert_eq!(&r[12..16], &[0x21, 0x21, 0x00, 0x24]);
    assert_eq!(&r[16..32], &1u128.to_be_bytes());
    assert_eq!(&r[32..48], &(0x2001_0db8u128 << 96).to_be_bytes());
    assert_eq!(&r[48..52], &[0x01, 0xBB, 0x00, 0x50]);
}

#[test]
fn proxy_family_mismatch() {
    let a = v4(192, 0, 2, 1, 1);
    let b = v6(1, 2);
    assert_eq!(build_proxy_v1(&a, &b), Err(ProxyError::FamilyMismatch));
    assert_eq!(build_proxy_v2(&b, &a), Err(ProxyError::FamilyMismatch));
    assert_eq!(build_proxy_header(HAProxyVersion::V1, &a, &b), Err(ProxyError::FamilyMismatch));
    assert_eq!(upstream_prelude(true, HAProxyVersion::V2, &a, &b), Err(ProxyError::FamilyMismatch));
}

#[test]
fn prelude_when_disabled_or_enabled() {
    let a = v4(192, 0, 2, 1, 1);
    let b = v6(1, 2);
    assert_eq!(upstream_prelude(false, HAProxyVersion::V1, &a, &b), Ok(Vec::new()));
    let c = v4(10, 0, 0, 2, 2);
    assert_eq!(
        upstream_prelude(true, HAProxyVersion::V1, &a, &c),
        Ok(b"PROXY TCP4 192.0.2.1 10.0.0.2 1 2\r\n".to_vec())
    );
    assert_eq!(upstream_prelude(true, HAProxyVersion::V2, &a, &c).unwrap().len(), 28);
}
