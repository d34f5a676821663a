//! Cloudflare back-end: upsert an A record and an SRV record through the
//! v4 REST API. The exchange is a session of steps: each response that the
//! caller hands in yields the next request, or the end.
use vstd::prelude::*;

use crate::config::DDNSConfig;
use crate::ddns::DynamicDns;

verus! {

/// HTTP method of a request.
#[derive(Clone, Copy, Debug, PartialEq, Eq, Structural)]
pub enum HttpMethod {
    Get,
    Post,
    Patch,
}

/// Type-specific part of a DNS record.
#[derive(Debug)]
pub enum RecordData {
    /// An A record pointing at an address.
    A { content: String },
    /// An SRV record pointing at a host name.
    Srv {
        service: String,
        proto: String,
        name: String,
        priority: u16,
        weight: u16,
        port: u16,
        target: String,
    },
}

/// A DNS record to write.
#[derive(Debug)]
pub struct DnsRecord {
    pub name: String,
    pub proxied: bool,
    pub ttl: u32,
    pub data: RecordData,
}

/// An HTTP request to the API, authorised by a bearer token.
#[derive(Debug)]
pub struct HttpRequest {
    pub method: HttpMethod,
    pub url: String,
    pub token: String,
    pub body: Option<DnsRecord>,
}

/// What the caller reads from a response: its status, the `id` of the first
/// element of `result` (if any), and the body text.
#[derive(Debug)]
pub struct HttpResponse {
    pub status: u16,
    pub first_id: Option<String>,
    pub body: String,
}

/// Why publishing failed.
#[derive(Debug)]
pub enum DdnsError {
    /// The zone lookup found no zone for the domain.
    ZoneNotFound,
    /// The API answered with a status outside 2xx.
    Api { status: u16, body: String },
}

/// Where a publishing session stands.
#[derive(Clone, Copy, Debug, PartialEq, Eq, Structural)]
pub enum Stage {
    FetchZone,
    SearchA,
    WriteA,
    SearchSrv,
    WriteSrv,
    Done,
}

/// What to do next.
#[derive(Debug)]
pub enum Step {
    /// Send this request and hand its response back.
    Send(HttpRequest),
    /// Both records are written.
    Finished,
    /// Publishing failed.
    Failed(DdnsError),
}

/// Model of [`RecordData`].
pub enum RecordDataView {
    A { content: Seq<char> },
    Srv {
        service: Seq<char>,
        proto: Seq<char>,
        name: Seq<char>,
        priority: u16,
        weight: u16,
        port: u16,
        target: Seq<char>,
    },
}

/// Model of [`DnsRecord`].
pub struct RecordView {
    pub name: Seq<char>,
    pub proxied: bool,
    pub ttl: u32,
    pub data: RecordDataView,
}

/// Model of [`HttpRequest`].
pub struct RequestView {
    pub method: HttpMethod,
    pub url: Seq<char>,
    pub token: Seq<char>,
    pub body: Option<RecordView>,
}

/// Model of [`HttpResponse`].
pub struct ResponseView {
    pub status: u16,
    pub first_id: Option<Seq<char>>,
    pub body: Seq<char>,
}

/// Model of [`DdnsError`].
pub enum ErrorView {
    ZoneNotFound,
    Api { status: u16, body: Seq<char> },
}

/// Model of [`Step`].
pub enum StepView {
    Send(RequestView),
    Finished,
    Failed(ErrorView),
}

/// Model of [`UpdateSession`].
pub struct SessionView {
    pub stage: Stage,
    pub token: Seq<char>,
    pub domain: Seq<char>,
    pub sub_domain: Seq<char>,
    pub host: Seq<char>,
    pub port: u16,
    pub zone: Seq<char>,
}

pub open spec fn opt_view(o: Option<String>) -> Option<Seq<char>> {
    match o {
        Some(s) => Some(s@),
        None => None,
    }
}

impl View for RecordData {
    type V = RecordDataView;

    open spec fn view(&self) -> RecordDataView {
        match self {
            RecordData::A { content } => RecordDataView::A { content: content@ },
            RecordData::Srv { service, proto, name, priority, weight, port, target } => RecordDataView::Srv {
                service: service@,
                proto: proto@,
                name: name@,
                priority: *priority,
                weight: *weight,
                port: *port,
                target: target@,
            },
        }
    }
}

impl View for DnsRecord {
    type V = RecordView;

    open spec fn view(&self) -> RecordView {
        RecordView { name: self.name@, proxied: self.proxied, ttl: self.ttl, data: self.data@ }
    }
}

impl View for HttpRequest {
    type V = RequestView;

    open spec fn view(&self) -> RequestView {
        RequestView {
            method: self.method,
            url: self.url@,
            token: self.token@,
            body: match self.body {
                Some(r) => Some(r@),
                None => None,
            },
        }
    }
}

impl View for HttpResponse {
    type V = ResponseView;

    open spec fn view(&self) -> ResponseView {
        ResponseView { status: self.status, first_id: opt_view(self.first_id), body: self.body@ }
    }
}

impl View for DdnsError {
    type V = ErrorView;

    open spec fn view(&self) -> ErrorView {
        match self {
            DdnsError::ZoneNotFound => ErrorView::ZoneNotFound,
            DdnsError::Api { status, body } => ErrorView::Api { status: *status, body: body@ },
        }
    }
}

impl View for Step {
    type V = StepView;

    open spec fn view(&self) -> StepView {
        match self {
            Step::Send(r) => StepView::Send(r@),
            Step::Finished => StepView::Finished,
            Step::Failed(e) => StepView::Failed(e@),
        }
    }
}

/// The `id` string of the first element of the `result` array of a JSON
/// body, if the body is JSON and holds one.
pub uninterp spec fn result_id_of(body: Seq<char>) -> Option<Seq<char>>;

/// Relies on `serde_json::from_str` and `serde_json::Value` indexing (which
/// yields `Null` for what is missing) and `as_str`: reads `result[0].id`.
#[verifier::external_body]
fn first_result_id(body: &str) -> (r: Option<String>)
    ensures
        opt_view(r) == result_id_of(body@),
{
    let v: serde_json::Value = match serde_json::from_str(body) {
        Ok(v) => v,
        Err(_) => return None,
    };
    v["result"][0]["id"].as_str().map(String::from)
}

impl HttpResponse {
    /// A response read from its status and body text.
    pub fn from_body(status: u16, body: String) -> (r: HttpResponse)
        ensures
            r@ == (ResponseView { status, first_id: result_id_of(body@), body: body@ }),
    {
        let first_id = first_result_id(body.as_str());
        HttpResponse { status, first_id, body }
    }
}

/// Base URL of the zones API.
pub open spec fn zones_base() -> Seq<char> {
    "https://api.cloudflare.com/client/v4/zones"@
}

/// URL that looks a zone up by domain.
pub open spec fn zone_url(domain: Seq<char>) -> Seq<char> {
    zones_base() + "?name="@ + domain
}

/// URL that looks records of a zone up by name.
pub open spec fn search_url(zone: Seq<char>, name: Seq<char>) -> Seq<char> {
    zones_base() + "/"@ + zone + "/dns_records?name="@ + name
}

/// URL that a record is written to: the found record, or the zone's record
/// collection when none was found.
pub open spec fn write_url(zone: Seq<char>, found: Option<Seq<char>>) -> Seq<char> {
    match found {
        Some(id) => zones_base() + "/"@ + zone + "/dns_records/"@ + id,
        None => zones_base() + "/"@ + zone + "/dns_records"@,
    }
}

/// PATCH a found record, POST a new one.
pub open spec fn write_method(found: Option<Seq<char>>) -> HttpMethod {
    match found {
        Some(_) => HttpMethod::Patch,
        None => HttpMethod::Post,
    }
}

/// Name of the A record: `<sub>.<domain>`, or `<domain>` when the
/// sub-domain is empty or `@`.
pub open spec fn a_name_spec(sub: Seq<char>, domain: Seq<char>) -> Seq<char> {
    if sub.len() == 0 || sub == "@"@ {
        domain
    } else {
        sub + "."@ + domain
    }
}

/// Name of the SRV record for an A-record name.
pub open spec fn srv_name_spec(a_name: Seq<char>) -> Seq<char> {
    "_minecraft._tcp."@ + a_name
}

/// The A record: `a_name -> host`, not proxied, TTL 60.
pub open spec fn a_record(a_name: Seq<char>, host: Seq<char>) -> RecordView {
    RecordView { name: a_name, proxied: false, ttl: 60, data: RecordDataView::A { content: host } }
}

/// The SRV record: service `_minecraft`, proto `_tcp`, priority 10, weight
/// 0, the given port, target the A-record name, not proxied, TTL 60.
pub open spec fn srv_record(sub: Seq<char>, a_name: Seq<char>, port: u16) -> RecordView {
    RecordView {
        name: srv_name_spec(a_name),
        proxied: false,
        ttl: 60,
        data: RecordDataView::Srv {
            service: "_minecraft"@,
            proto: "_tcp"@,
            name: sub,
            priority: 10,
            weight: 0,
            port,
            target: a_name,
        },
    }
}

/// A GET request.
pub open spec fn get_request(url: Seq<char>, token: Seq<char>) -> RequestView {
    RequestView { method: HttpMethod::Get, url, token, body: None }
}

/// The request that writes `record`, given what the search found.
pub open spec fn write_request(
    zone: Seq<char>,
    found: Option<Seq<char>>,
    token: Seq<char>,
    record: RecordView,
) -> RequestView {
    RequestView { method: write_method(found), url: write_url(zone, found), token, body: Some(record) }
}

/// Whether a status is 2xx.
pub open spec fn is_success(status: u16) -> bool {
    200 <= status <= 299
}

/// One step of the session: the next state and what to do, given the
/// response to the request of the current stage.
pub open spec fn step_spec(s: SessionView, r: ResponseView) -> (SessionView, StepView) {
    let a = a_name_spec(s.sub_domain, s.domain);
    if s.stage == Stage::Done {
        (s, StepView::Finished)
    } else if !is_success(r.status) {
        (
            SessionView { stage: Stage::Done, ..s },
            StepView::Failed(ErrorView::Api { status: r.status, body: r.body }),
        )
    } else {
        match s.stage {
            Stage::FetchZone => match r.first_id {
                None => (SessionView { stage: Stage::Done, ..s }, StepView::Failed(ErrorView::ZoneNotFound)),
                Some(z) => (
                    SessionView { stage: Stage::SearchA, zone: z, ..s },
                    StepView::Send(get_request(search_url(z, a), s.token)),
                ),
            },
            Stage::SearchA => (
                SessionView { stage: Stage::WriteA, ..s },
                StepView::Send(write_request(s.zone, r.first_id, s.token, a_record(a, s.host))),
            ),
            Stage::WriteA => (
                SessionView { stage: Stage::SearchSrv, ..s },
                StepView::Send(get_request(search_url(s.zone, srv_name_spec(a)), s.token)),
            ),
            Stage::SearchSrv => (
                SessionView { stage: Stage::WriteSrv, ..s },
                StepView::Send(
                    write_request(s.zone, r.first_id, s.token, srv_record(s.sub_domain, a, s.port)),
                ),
            ),
            _ => (SessionView { stage: Stage::Done, ..s }, StepView::Finished),
        }
    }
}

/// The Cloudflare publisher.
#[derive(Debug)]
pub struct Provider {
    pub token: String,
    pub domain: String,
    pub sub_domain: String,
}

/// A publishing session in progress.
#[derive(Debug)]
pub struct UpdateSession {
    pub stage: Stage,
    pub token: String,
    pub domain: String,
    pub sub_domain: String,
    pub host: String,
    pub port: u16,
    pub zone_id: String,
    pub a_name: String,
    pub srv_name: String,
}

impl View for UpdateSession {
    type V = SessionView;

    open spec fn view(&self) -> SessionView {
        SessionView {
            stage: self.stage,
            token: self.token@,
            domain: self.domain@,
            sub_domain: self.sub_domain@,
            host: self.host@,
            port: self.port,
            zone: self.zone_id@,
        }
    }
}

/// Name of the A record for a sub-domain and domain.
pub fn a_record_name(sub_domain: &String, domain: &String) -> (r: String)
    ensures
        r@ == a_name_spec(sub_domain@, domain@),
{
    let at = String::from_str("@");
    if sub_domain.as_str().is_empty() || sub_domain.eq(&at) {
        domain.clone()
    } else {
        let mut r = sub_domain.clone();
        r.append(".");
        r.append(domain.as_str());
        r
    }
}

/// Name of the SRV record for an A-record name.
pub fn srv_record_name(a_name: &String) -> (r: String)
    ensures
        r@ == srv_name_spec(a_name@),
{
    let mut r = String::from_str("_minecraft._tcp.");
    r.append(a_name.as_str());
    r
}

fn zone_lookup_url(domain: &String) -> (r: String)
    ensures
        r@ == zone_url(domain@),
{
    let mut r = String::from_str("https://api.cloudflare.com/client/v4/zones");
    r.append("?name=");
    r.append(domain.as_str());
    r
}

fn record_search_url(zone: &String, name: &String) -> (r: String)
    ensures
        r@ == search_url(zone@, name@),
{
    let mut r = String::from_str("https://api.cloudflare.com/client/v4/zones");
    r.append("/");
    r.append(zone.as_str());
    r.append("/dns_records?name=");
    r.append(name.as_str());
    r
}

fn record_write(zone: &String, found: Option<String>, token: &String, record: DnsRecord) -> (r: HttpRequest)
    ensures
        r@ == write_request(zone@, opt_view(found), token@, record@),
{
    let mut url = String::from_str("https://api.cloudflare.com/client/v4/zones");
    url.append("/");
    url.append(zone.as_str());
    match found {
        Some(id) => {
            url.append("/dns_records/");
            url.append(id.as_str());
            HttpRequest { method: HttpMethod::Patch, url, token: token.clone(), body: Some(record) }
        },
        None => {
            url.append("/dns_records");
            HttpRequest { method: HttpMethod::Post, url, token: token.clone(), body: Some(record) }
        },
    }
}

impl Provider {
    /// A publisher with the configured credentials and names.
    pub fn new(config: DDNSConfig) -> (r: Provider)
        ensures
            r.token@ == config.token@,
            r.domain@ == config.domain@,
            r.sub_domain@ == config.sub_domain@,
    {
        Provider { token: config.token, domain: config.domain, sub_domain: config.sub_domain }
    }
}

impl DynamicDns for Provider {
    open spec fn update_view(&self, host: Seq<char>, port: u16) -> SessionView {
        SessionView {
            stage: Stage::FetchZone,
            token: self.token@,
            domain: self.domain@,
            sub_domain: self.sub_domain@,
            host,
            port,
            zone: Seq::empty(),
        }
    }

    fn update_srv(&self, host: &str, port: u16) -> (r: UpdateSession) {
        let a_name = a_record_name(&self.sub_domain, &self.domain);
        let srv_name = srv_record_name(&a_name);
        UpdateSession {
            stage: Stage::FetchZone,
            token: self.token.clone(),
            domain: self.domain.clone(),
            sub_domain: self.sub_domain.clone(),
            host: String::from_str(host),
            port,
            zone_id: String::new(),
            a_name,
            srv_name,
        }
    }
}

impl UpdateSession {
    /// The derived record names agree with the configured ones.
    pub open spec fn wf(&self) -> bool {
        &&& self.a_name@ == a_name_spec(self.sub_domain@, self.domain@)
        &&& self.srv_name@ == srv_name_spec(self.a_name@)
    }

    /// The request that opens the session: the zone lookup.
    pub fn first_request(&self) -> (r: HttpRequest)
        ensures
            r@ == get_request(zone_url(self.domain@), self.token@),
    {
        HttpRequest {
            method: HttpMethod::Get,
            url: zone_lookup_url(&self.domain),
            token: self.token.clone(),
            body: None,
        }
    }

    /// Advances the session with the response to the last request.
    pub fn on_response(&mut self, resp: HttpResponse) -> (r: Step)
        requires
            old(self).wf(),
        ensures
            final(self).wf(),
            (final(self)@, r@) == step_spec(old(self)@, resp@),
    {
        if self.stage == Stage::Done {
            return Step::Finished;
        }
        if resp.status < 200 || resp.status > 299 {
            self.stage = Stage::Done;
            return Step::Failed(DdnsError::Api { status: resp.status, body: resp.body });
        }
        match self.stage {
            Stage::FetchZone => match resp.first_id {
                None => {
                    self.stage = Stage::Done;
                    Step::Failed(DdnsError::ZoneNotFound)
                },
                Some(z) => {
                    let url = record_search_url(&z, &self.a_name);
                    self.zone_id = z;
                    self.stage = Stage::SearchA;
                    Step::Send(HttpRequest { method: HttpMethod::Get, url, token: self.token.clone(), body: None })
                },
            },
            Stage::SearchA => {
                let record = DnsRecord {
                    name: self.a_name.clone(),
                    proxied: false,
                    ttl: 60,
                    data: RecordData::A { content: self.host.clone() },
                };
                self.stage = Stage::WriteA;
                Step::Send(record_write(&self.zone_id, resp.first_id, &self.token, record))
            },
            Stage::WriteA => {
                let url = record_search_url(&self.zone_id, &self.srv_name);
                self.stage = Stage::SearchSrv;
                Step::Send(HttpRequest { method: HttpMethod::Get, url, token: self.token.clone(), body: None })
            },
            Stage::SearchSrv => {
                let record = DnsRecord {
                    name: self.srv_name.clone(),
                    proxied: false,
                    ttl: 60,
                    data: RecordData::Srv {
                        service: String::from_str("_minecraft"),
                        proto: String::from_str("_tcp"),
                        name: self.sub_domain.clone(),
                        priority: 10,
                        weight: 0,
                        port: self.port,
                        target: self.a_name.clone(),
                    },
                };
                self.stage = Stage::WriteSrv;
                Step::Send(record_write(&self.zone_id, resp.first_id, &self.token, record))
            },
            _ => {
                self.stage = Stage::Done;
                Step::Finished
            },
        }
    }
}

/// Publishing is idempotent: what a search finds decides only whether the
/// record is updated in place (PATCH to the found id) or created (POST). The
/// record written, and the state that follows, are the same either way: the A
/// record `a_name -> host` after the A search, the SRV record for `port` after
/// the SRV search. So publishing `(host, port)` twice leaves one A and one SRV
/// record with the same content, whether or not they existed before.
pub proof fn lemma_publish_idempotent(s: SessionView, r1: ResponseView, r2: ResponseView)
    requires
        s.stage == Stage::SearchA || s.stage == Stage::SearchSrv,
        is_success(r1.status),
        is_success(r2.status),
    ensures
        step_spec(s, r1).0 == step_spec(s, r2).0,
        s.stage == Stage::SearchA ==> step_spec(s, r1).1 == StepView::Send(
            write_request(s.zone, r1.first_id, s.token, a_record(a_name_spec(s.sub_domain, s.domain), s.host)),
        ),
        s.stage == Stage::SearchSrv ==> step_spec(s, r1).1 == StepView::Send(
            write_request(
                s.zone,
                r1.first_id,
                s.token,
                srv_record(s.sub_domain, a_name_spec(s.sub_domain, s.domain), s.port),
            ),
        ),
        r1.first_id is Some ==> write_method(r1.first_id) == HttpMethod::Patch && write_url(s.zone, r1.first_id)
            == zones_base() + "/"@ + s.zone + "/dns_records/"@ + r1.first_id->Some_0,
        r1.first_id is None ==> write_method(r1.first_id) == HttpMethod::Post && write_url(s.zone, r1.first_id)
            == zones_base() + "/"@ + s.zone + "/dns_records"@,
{
}

} // verus!
