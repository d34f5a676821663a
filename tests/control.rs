use bedrock_hole::addr::{IpAddress, SocketAddress};
use bedrock_hole::config::{DDNSConfig, DDNSProvider};
use bedrock_hole::ddns::cloudflare::{
    a_record_name, srv_record_name, DdnsError, DnsRecord, HttpMethod, HttpRequest, HttpResponse,
    Provider, RecordData, Stage, Step,
};
use bedrock_hole::ddns::{init, DynamicDns, Publisher};
use bedrock_hole::forward::{
    canonical_ip, heartbeat_probe, heartbeat_reply, is_heartbeat_reply, pick_target, route_connection,
    Route,
};
use bedrock_hole::supervise::{
    next_phase, HeartbeatAction, HeartbeatMonitor, Maintainer, Phase, PhaseEvent, ProbeAction,
};

const WAN: u32 = 0xCB00_7107; // 203.0.113.7

fn config(sub: &str) -> DDNSConfig {
    DDNSConfig {
        provider: DDNSProvider::Cloudflare,
        token: "SECRET-REDACTED".to_string(),
        domain: "example.com".to_string(),
        sub_domain: sub.to_string(),
    }
}

fn ok(first_id: Option<&str>) -> HttpResponse {
    HttpResponse { status: 200, first_id: first_id.map(|s| s.to_string()), body: String::new() }
}

fn sent(step: Step) -> HttpRequest {
    match step {
        Step::Send(r) => r,
        other => panic!("expected a request, got {:?}", other),
    }
}

fn record(r: &HttpRequest) -> &DnsRecord {
    r.body.as_ref().unwrap()
}

#[test]
fn cloudflare_publish_scenario() {
    let provider = Provider::new(config("mc"));
    let mut s = provider.update_srv("203.0.113.7", 19132);
    let q = s.first_request();
    assert_eq!(q.method, HttpMethod::Get);
    assert_eq!(q.url, "https://api.cloudflare.com/client/v4/zones?name=example.com");
    assert_eq!(q.token, "SECRET-REDACTED");

    let q = sent(s.on_response(ok(Some("zone1"))));
    assert_eq!(q.method, HttpMethod::Get);
    assert_eq!(q.url, "https://api.cloudflare.com/client/v4/zones/zone1/dns_records?name=mc.example.com");

    let q = sent(s.on_response(ok(None)));
    assert_eq!(q.method, HttpMethod::Post);
    assert_eq!(q.url, "https://api.cloudflare.com/client/v4/zones/zone1/dns_records");
    let a = record(&q);
    assert_eq!(a.name, "mc.example.com");
    assert_eq!(a.ttl, 60);
    assert!(!a.proxied);
    match &a.data {
        RecordData::A { content } => assert_eq!(content, "203.0.113.7"),
        other => panic!("expected an A record, got {:?}", other),
    }

    let q = sent(s.on_response(ok(None)));
    assert_eq!(q.method, HttpMethod::Get);
    assert_eq!(
        q.url,
        "https://api.cloudflare.com/client/v4/zones/zone1/dns_records?name=_minecraft._tcp.mc.example.com"
    );

    let q = sent(s.on_response(ok(Some("rec9"))));
    assert_eq!(q.method, HttpMethod::Patch);
    assert_eq!(q.url, "https://api.cloudflare.com/client/v4/zones/zone1/dns_records/rec9");
    let srv = record(&q);
    assert_eq!(srv.name, "_minecraft._tcp.mc.example.com");
    assert_eq!(srv.ttl, 60);
    assert!(!srv.proxied);
    match &srv.data {
        RecordData::Srv { service, proto, name, priority, weight, port, target } => {
            assert_eq!(service, "_minecraft");
            assert_eq!(proto, "_tcp");
            assert_eq!(name, "mc");
            assert_eq!(*priority, 10);
            assert_eq!(*weight, 0);
            assert_eq!(*port, 19132);
            assert_eq!(target, "mc.example.com");
        }
        other => panic!("expected an SRV record, got {:?}", other),
    }

    assert!(matches!(s.on_response(ok(None)), Step::Finished));
    assert_eq!(s.stage, Stage::Done);
}

#[test]
fn cloudflare_publish_twice_same_records() {
    let provider = Provider::new(config("mc"));
    let mut bodies = Vec::new();
    for found in [None, Some("existing")] {
        let mut s = provider.update_srv("203.0.113.7", 19132);
        sent(s.on_response(ok(Some("zone1"))));
        let a = sent(s.on_response(ok(found)));
        sent(s.on_response(ok(None)));
        let srv = sent(s.on_response(ok(found)));
        assert_eq!(a.method, if found.is_some() { HttpMethod::Patch } else { HttpMethod::Post });
        bodies.push((format!("{:?}", a.body), format!("{:?}", srv.body)));
    }
    assert_eq!(bodies[0], bodies[1]);
}

#[test]
fn cloudflare_zone_not_found() {
    let mut s = Provider::new(config("mc")).update_srv("203.0.113.7", 1);
    assert!(matches!(s.on_response(ok(None)), Step::Failed(DdnsError::ZoneNotFound)));
    assert_eq!(s.stage, Stage::Done);
}

#[test]
fn cloudflare_api_error() {
    let mut s = Provider::new(config("mc")).update_srv("203.0.113.7", 1);
    sent(s.on_response(ok(Some("zone1"))));
    sent(s.on_response(ok(None)));
    let r = s.on_response(HttpResponse { status: 403, first_id: None, body: "denied".to_string() });
    match r {
        Step::Failed(DdnsError::Api { status, body }) => {
            assert_eq!(status, 403);
            assert_eq!(body, "denied");
        }
        other => panic!("expected an API error, got {:?}", other),
    }
    assert!(matches!(s.on_response(ok(None)), Step::Finished));
}

#[test]
fn record_names() {
    let d = "example.com".to_string();
    assert_eq!(a_record_name(&"".to_string(), &d), "example.com");
    assert_eq!(a_record_name(&"@".to_string(), &d), "example.com");
    assert_eq!(a_record_name(&"mc".to_string(), &d), "mc.example.com");
    assert_eq!(srv_record_name(&"example.com".to_string()), "_minecraft._tcp.example.com");
}

#[test]
fn apex_publish_uses_domain() {
    let mut s = init(config("@")).update_srv("198.51.100.9", 7);
    let q = sent(s.on_response(ok(Some("z"))));
    assert_eq!(q.url, "https://api.cloudflare.com/client/v4/zones/z/dns_records?name=example.com");
}

#[test]
fn init_builds_cloudflare() {
    match init(config("mc")) {
        Publisher::Cloudflare(p) => {
            assert_eq!(p.domain, "example.com");
            assert_eq!(p.sub_domain, "mc");
            assert_eq!(p.token, "SECRET-REDACTED");
        }
    }
}

#[test]
fn demux_routes() {
    let wan = IpAddress::V4(WAN);
    assert_eq!(route_connection(IpAddress::V4(WAN), wan, b"hbpk"), Route::Heartbeat);
    assert_eq!(route_connection(IpAddress::V6(0xffff_0000_0000 | WAN as u128), wan, b"hbpkxx"), Route::Heartbeat);
    assert_eq!(route_connection(IpAddress::V4(WAN), wan, b"GET "), Route::Player);
    assert_eq!(route_connection(IpAddress::V4(WAN), wan, b"hbp"), Route::Player);
    assert_eq!(route_connection(IpAddress::V4(WAN + 1), wan, b"hbpk"), Route::Player);
    assert_eq!(route_connection(IpAddress::V6(WAN as u128), wan, b"hbpk"), Route::Player);
}

#[test]
fn canonical_strips_mapped_prefix() {
    assert_eq!(canonical_ip(IpAddress::V6(0xffff_0a00_0001)), IpAddress::V4(0x0a00_0001));
    assert_eq!(canonical_ip(IpAddress::V6(1)), IpAddress::V6(1));
    assert_eq!(canonical_ip(IpAddress::V4(7)), IpAddress::V4(7));
}

#[test]
fn heartbeat_bytes() {
    assert_eq!(heartbeat_probe(), b"hbpk".to_vec());
    assert_eq!(heartbeat_reply(b"hbpk"), Some(b"hbre".to_vec()));
    assert_eq!(heartbeat_reply(b"hbpkhbpk"), None);
    assert_eq!(heartbeat_reply(b"xxxx"), None);
    assert!(is_heartbeat_reply(b"hbre"));
    assert!(is_heartbeat_reply(b"hbre!"));
    assert!(!is_heartbeat_reply(b"hbr"));
    assert!(!is_heartbeat_reply(b""));
    assert!(!is_heartbeat_reply(b"hbpk"));
}

#[test]
fn target_of_family() {
    let addrs = vec![
        SocketAddress { ip: IpAddress::V6(1), port: 1 },
        SocketAddress { ip: IpAddress::V4(2), port: 2 },
        SocketAddress { ip: IpAddress::V4(3), port: 3 },
    ];
    assert_eq!(pick_target(&addrs, false, 25565), Some(SocketAddress { ip: IpAddress::V4(2), port: 25565 }));
    assert_eq!(pick_target(&addrs, true, 9), Some(SocketAddress { ip: IpAddress::V6(1), port: 9 }));
    assert_eq!(pick_target(&addrs[1..].to_vec(), true, 9), None);
    assert_eq!(pick_target(&Vec::new(), false, 9), None);
}

#[test]
fn heartbeat_failures_trigger_remeasure() {
    let mut m = HeartbeatMonitor::new();
    assert_eq!(m.on_session_end(), HeartbeatAction::Retry);
    assert_eq!(m.on_session_end(), HeartbeatAction::Retry);
    assert_eq!(m.on_session_end(), HeartbeatAction::Remeasure);
    assert_eq!(m.failures, 3);
    m.on_remeasured(true);
    assert_eq!(m.failures, 0);
    assert_eq!(m.on_session_end(), HeartbeatAction::Retry);
}

#[test]
fn heartbeat_failed_remeasure_retries() {
    let mut m = HeartbeatMonitor::new();
    m.on_session_end();
    m.on_exchange_ok();
    assert_eq!(m.failures, 0);
    m.on_session_end();
    m.on_session_end();
    assert_eq!(m.on_session_end(), HeartbeatAction::Remeasure);
    m.on_remeasured(false);
    assert_eq!(m.on_session_end(), HeartbeatAction::Remeasure);
    assert_eq!(m.failures, 3);
}

fn stun_response(ip: u32, port: u16) -> Vec<u8> {
    let mut b = vec![0x01, 0x01, 0x00, 0x0C, 0x21, 0x12, 0xA4, 0x42];
    b.extend_from_slice(&[0xAA; 12]);
    b.extend_from_slice(&[0x00, 0x20, 0x00, 0x08, 0x00, 0x01]);
    b.extend_from_slice(&(port ^ 0x2112).to_be_bytes());
    b.extend_from_slice(&(ip ^ 0x2112_A442).to_be_bytes());
    b
}

#[test]
fn maintainer_publishes_changes_only() {
    let mut m = Maintainer::new(true);
    let a = SocketAddress { ip: IpAddress::V4(WAN), port: 19132 };
    assert_eq!(m.on_response(&stun_response(WAN, 19132)), Ok(ProbeAction::Publish(a)));
    m.on_published(a, false);
    assert_eq!(m.last_addr, None);
    assert_eq!(m.on_response(&stun_response(WAN, 19132)), Ok(ProbeAction::Publish(a)));
    m.on_published(a, true);
    assert_eq!(m.last_addr, Some(a));
    assert_eq!(m.on_response(&stun_response(WAN, 19132)), Ok(ProbeAction::Unchanged));
    let b = SocketAddress { ip: IpAddress::V4(WAN), port: 19133 };
    assert_eq!(m.on_response(&stun_response(WAN, 19133)), Ok(ProbeAction::Publish(b)));
    assert!(!m.end_of_tick());
    assert!(!m.reconn);
}

#[test]
fn maintainer_reconnects() {
    let mut m = Maintainer::new(false);
    assert!(m.end_of_tick());
    assert!(m.reconn);
    m.on_connected();
    assert!(!m.reconn);
    assert!(m.on_response(&[0u8; 4]).is_err());
    assert!(m.reconn);
    m.on_connected();
    m.on_error();
    assert!(m.reconn);
}

#[test]
fn supervisory_phases() {
    let mut p = Phase::Init;
    for (e, want) in [
        (PhaseEvent::Start, Phase::Measuring),
        (PhaseEvent::Measured, Phase::Publishing),
        (PhaseEvent::Published, Phase::Running),
        (PhaseEvent::HeartbeatLost, Phase::Recovering),
        (PhaseEvent::Published, Phase::Running),
    ] {
        p = next_phase(p, e);
        assert_eq!(p, want);
    }
    assert_eq!(next_phase(Phase::Init, PhaseEvent::Published), Phase::Init);
}

#[test]
fn maintainer_remeasure_republishes() {
    let mut m = Maintainer::new(true);
    let a = SocketAddress { ip: IpAddress::V4(WAN), port: 19132 };
    m.on_published(a, true);
    m.on_remeasure_request();
    assert!(m.reconn);
    assert_eq!(m.on_response(&stun_response(WAN, 19132)), Ok(ProbeAction::Publish(a)));
}

#[test]
fn response_first_id_from_body() {
    let r = HttpResponse::from_body(200, r#"{"result":[{"id":"abc123","name":"x"},{"id":"other"}],"success":true}"#.to_string());
    assert_eq!(r.first_id.as_deref(), Some("abc123"));
    assert_eq!(r.status, 200);
    let r = HttpResponse::from_body(200, r#"{"result":[],"success":true}"#.to_string());
    assert_eq!(r.first_id, None);
    let r = HttpResponse::from_body(200, r#"{"result":[{"id":7}]}"#.to_string());
    assert_eq!(r.first_id, None);
    let r = HttpResponse::from_body(502, "<html>bad gateway</html>".to_string());
    assert_eq!(r.first_id, None);
    assert_eq!(r.body, "<html>bad gateway</html>");
}

#[test]
fn session_driven_by_response_bodies() {
    let mut s = Provider::new(config("")).update_srv("192.0.2.1", 25565);
    let zone = r#"{"result":[{"id":"zz"}]}"#.to_string();
    let q = sent(s.on_response(HttpResponse::from_body(200, zone)));
    assert_eq!(q.url, "https://api.cloudflare.com/client/v4/zones/zz/dns_records?name=example.com");
    let found = r#"{"result":[{"id":"a1"}]}"#.to_string();
    let q = sent(s.on_response(HttpResponse::from_body(200, found)));
    assert_eq!(q.method, HttpMethod::Patch);
    assert_eq!(q.url, "https://api.cloudflare.com/client/v4/zones/zz/dns_records/a1");
}
