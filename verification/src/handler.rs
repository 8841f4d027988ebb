//! The per-request state machine: route, bound the body size, identify the
//! provider by its signature header, verify the signature, extract the
//! payload, and either reject with a fixed response or hand one rendered
//! relay message to the caller.  Exactly one step comes out of every
//! request, and a forward step exists only for a verified signature.

use vstd::prelude::*;
use vstd::pervasive::unreached;
use vstd::string::StringSliceAdditionalSpecFns;
use vstd::string::StrSliceExecFns;

use crate::bytes::{eq_ignore_ascii_case, lower_bytes};
use crate::extract::{extract, json_value_ok, notification_matches};
use crate::notification::{NormalizedNotification, RelayOutcome};
use crate::relay::{relay_message_spec, render_message};
use crate::router::{route_of, RouteTarget, RoutingTable};
use crate::signature::{signature_matches, verify};

verus! {

/// One provider the relay accepts notifications from: its display name,
/// the header carrying its signature, and the shared secret.
pub struct ProviderConfig {
    pub name: String,
    pub signature_header: Vec<u8>,
    pub secret: Vec<u8>,
}

/// The immutable configuration a handler runs under, constructed once at
/// startup and passed in explicitly.
pub struct HandlerConfig {
    pub routes: RoutingTable,
    pub providers: Vec<ProviderConfig>,
    pub max_body_bytes: usize,
}

/// An inbound request, reduced to plain values.
pub struct IncomingRequest {
    pub method: Vec<u8>,
    pub path: Vec<u8>,
    pub headers: Vec<(Vec<u8>, Vec<u8>)>,
    pub body: Vec<u8>,
}

/// The response returned to the original caller.
pub struct HttpResponse {
    pub status: u16,
    pub body: String,
}

/// Why a request was rejected before any relay attempt.
#[derive(Clone, Copy, Debug, PartialEq, Eq, Structural)]
pub enum RejectReason {
    PayloadTooLarge,
    UnknownProvider,
    InvalidSignature,
    MalformedPayload,
}

/// The terminal step of handling one request: either a finished response,
/// or a notification together with its rendered relay message, to be
/// delivered downstream by the caller.
pub enum HandlerStep {
    Respond(HttpResponse),
    Forward(NormalizedNotification, String),
}

/// The value of the first header whose name equals `name` up to ASCII
/// case; `None` when no header matches.
pub open spec fn header_value(headers: Seq<(Vec<u8>, Vec<u8>)>, name: Seq<u8>) -> Option<Seq<u8>>
    decreases headers.len(),
{
    if headers.len() == 0 {
        None
    } else if lower_bytes(headers[0].0@) == lower_bytes(name) {
        Some(headers[0].1@)
    } else {
        header_value(headers.drop_first(), name)
    }
}

/// The index of the first configured provider whose signature header is
/// present on the request; `None` when no identifying header is there.
pub open spec fn provider_index(
    providers: Seq<ProviderConfig>,
    headers: Seq<(Vec<u8>, Vec<u8>)>,
) -> Option<int>
    decreases providers.len(),
{
    if providers.len() == 0 {
        None
    } else if header_value(headers, providers[0].signature_header@) is Some {
        Some(0)
    } else {
        match provider_index(providers.drop_first(), headers) {
            Some(i) => Some(i + 1),
            None => None,
        }
    }
}

/// An identified provider always has its signature header on the request.
pub proof fn lemma_provider_index_has_header(
    providers: Seq<ProviderConfig>,
    headers: Seq<(Vec<u8>, Vec<u8>)>,
)
    ensures
        provider_index(providers, headers) matches Some(i) ==> 0 <= i < providers.len()
            && header_value(headers, providers[i].signature_header@) is Some,
    decreases providers.len(),
{
    if providers.len() > 0 {
        lemma_provider_index_has_header(providers.drop_first(), headers);
    }
}

/// The decision taken for one request, in the order the handler takes it:
/// routing, body bound, provider identification, signature, payload.
pub enum RequestDecision {
    NotFound,
    Reject(RejectReason),
    Forward(int),
}

/// What the handler decides for a request under a configuration.  A
/// `Forward` decision exists only when the identified provider's signature
/// verified over the exact raw body and the body parsed as JSON.
pub open spec fn request_decision(cfg: HandlerConfig, req: IncomingRequest) -> RequestDecision {
    if route_of(cfg.routes.entries@, req.method@, req.path@) != Some(RouteTarget::WebhookBuild) {
        RequestDecision::NotFound
    } else if req.body@.len() > cfg.max_body_bytes {
        RequestDecision::Reject(RejectReason::PayloadTooLarge)
    } else {
        match provider_index(cfg.providers@, req.headers@) {
            None => RequestDecision::Reject(RejectReason::UnknownProvider),
            Some(i) => match header_value(req.headers@, cfg.providers@[i].signature_header@) {
                None => RequestDecision::Reject(RejectReason::UnknownProvider),
                Some(sig) => if !signature_matches(cfg.providers@[i].secret@, req.body@, sig) {
                    RequestDecision::Reject(RejectReason::InvalidSignature)
                } else if !json_value_ok(req.body@) {
                    RequestDecision::Reject(RejectReason::MalformedPayload)
                } else {
                    RequestDecision::Forward(i)
                },
            },
        }
    }
}

/// An unmatched (method, path) pair is decided not-found from the routing
/// table alone: two requests with the same method and path are either both
/// not found or both routed, whatever their headers and bodies are.
pub proof fn lemma_not_found_is_independent_of_headers_and_body(
    cfg: HandlerConfig,
    a: IncomingRequest,
    b: IncomingRequest,
)
    requires
        a.method@ == b.method@,
        a.path@ == b.path@,
    ensures
        (request_decision(cfg, a) is NotFound) == (request_decision(cfg, b) is NotFound),
{
}

/// No unverified payload reaches the relay: whenever the decision for a
/// request is to forward, the identified provider's signature header was
/// present, its value verified as the HMAC signature of the exact raw
/// body under that provider's secret, and the body parsed as JSON.
pub proof fn lemma_forward_only_with_verified_signature(cfg: HandlerConfig, req: IncomingRequest)
    ensures
        request_decision(cfg, req) matches RequestDecision::Forward(i) ==> (0 <= i
            < cfg.providers@.len() && (header_value(
            req.headers@,
            cfg.providers@[i].signature_header@,
        ) matches Some(sig) && signature_matches(cfg.providers@[i].secret@, req.body@, sig))
            && json_value_ok(req.body@)),
{
    lemma_provider_index_has_header(cfg.providers@, req.headers@);
}

/// The HTTP status a rejection maps to.
pub open spec fn reject_status(reason: RejectReason) -> u16 {
    match reason {
        RejectReason::PayloadTooLarge => 413,
        RejectReason::UnknownProvider => 401,
        RejectReason::InvalidSignature => 401,
        RejectReason::MalformedPayload => 400,
    }
}

/// The fixed plain-text body a rejection maps to.
pub open spec fn reject_body(reason: RejectReason) -> Seq<char> {
    match reason {
        RejectReason::PayloadTooLarge => "payload too large"@,
        RejectReason::UnknownProvider => "unknown provider"@,
        RejectReason::InvalidSignature => "invalid signature"@,
        RejectReason::MalformedPayload => "malformed payload"@,
    }
}

/// The fixed plain-text body of the not-found response.
pub open spec fn not_found_body() -> Seq<char> {
    "not found"@
}

/// The fixed response for an unmatched (method, path) pair.
pub fn not_found_response() -> (r: HttpResponse)
    ensures
        r.status == 404,
        r.body@ == not_found_body(),
{
    HttpResponse { status: 404, body: "not found".to_owned() }
}

/// The fixed response for a rejected request.
pub fn reject_response(reason: RejectReason) -> (r: HttpResponse)
    ensures
        r.status == reject_status(reason),
        r.body@ == reject_body(reason),
{
    match reason {
        RejectReason::PayloadTooLarge => HttpResponse {
            status: 413,
            body: "payload too large".to_owned(),
        },
        RejectReason::UnknownProvider => HttpResponse {
            status: 401,
            body: "unknown provider".to_owned(),
        },
        RejectReason::InvalidSignature => HttpResponse {
            status: 401,
            body: "invalid signature".to_owned(),
        },
        RejectReason::MalformedPayload => HttpResponse {
            status: 400,
            body: "malformed payload".to_owned(),
        },
    }
}

/// Maps an optional spec index shifted by `d`.
spec fn shift_index(o: Option<int>, d: int) -> Option<int> {
    match o {
        Some(k) => Some(k + d),
        None => None,
    }
}

/// Finds the value of the first header named `name`, ASCII
/// case-insensitively.
pub fn lookup_header<'a>(headers: &'a Vec<(Vec<u8>, Vec<u8>)>, name: &Vec<u8>) -> (r: Option<
    &'a Vec<u8>,
>)
    ensures
        match r {
            Some(v) => header_value(headers@, name@) == Some(v@),
            None => header_value(headers@, name@) is None,
        },
{
    let n = headers.len();
    let mut i: usize = 0;
    proof {
        assert(headers@.skip(0) =~= headers@);
    }
    while i < n
        invariant
            n == headers.len(),
            i <= n,
            header_value(headers@.skip(i as int), name@) == header_value(headers@, name@),
        decreases n - i,
    {
        proof {
            assert(headers@.skip(i as int)[0] == headers@[i as int]);
        }
        if eq_ignore_ascii_case(&headers[i].0, name) {
            return Some(&headers[i].1);
        }
        proof {
            assert(headers@.skip(i as int).drop_first() =~= headers@.skip(i as int + 1));
        }
        i = i + 1;
    }
    None
}

/// Finds the first configured provider whose signature header is present.
fn find_provider(providers: &Vec<ProviderConfig>, headers: &Vec<(Vec<u8>, Vec<u8>)>) -> (r: Option<
    usize,
>)
    ensures
        match r {
            Some(i) => i < providers.len() && provider_index(providers@, headers@) == Some(i as int),
            None => provider_index(providers@, headers@) is None,
        },
{
    let n = providers.len();
    let mut i: usize = 0;
    proof {
        assert(providers@.skip(0) =~= providers@);
    }
    while i < n
        invariant
            n == providers.len(),
            i <= n,
            provider_index(providers@, headers@) == shift_index(
                provider_index(providers@.skip(i as int), headers@),
                i as int,
            ),
        decreases n - i,
    {
        proof {
            assert(providers@.skip(i as int)[0] == providers@[i as int]);
        }
        if lookup_header(headers, &providers[i].signature_header).is_some() {
            return Some(i);
        }
        proof {
            assert(providers@.skip(i as int).drop_first() =~= providers@.skip(i as int + 1));
        }
        i = i + 1;
    }
    None
}

impl HandlerConfig {
    /// A configuration with the standard routing table: one entry, POST on
    /// the build-webhook path.
    pub fn new(providers: Vec<ProviderConfig>, max_body_bytes: usize) -> (r: HandlerConfig)
        ensures
            r.providers@ == providers@,
            r.max_body_bytes == max_body_bytes,
            r.routes.entries@.len() == 1,
            r.routes.entries@[0].method@ == "POST".spec_bytes(),
            r.routes.entries@[0].path@ == "/webhooks/build".spec_bytes(),
            r.routes.entries@[0].target == RouteTarget::WebhookBuild,
    {
        let mut routes = RoutingTable::new();
        routes.add_route(
            "POST".as_bytes_vec(),
            "/webhooks/build".as_bytes_vec(),
            RouteTarget::WebhookBuild,
        );
        HandlerConfig { routes, providers, max_body_bytes }
    }
}

/// Handles one request to its terminal step.  The response for every
/// rejection is fixed by the decision alone; a forward step carries the
/// extracted notification and its rendered relay message, and exists
/// exactly when the decision is to forward — so nothing unverified is ever
/// handed out for delivery.
pub fn handle_request(cfg: &HandlerConfig, req: &IncomingRequest) -> (r: HandlerStep)
    ensures
        (r is Forward <==> request_decision(*cfg, *req) is Forward),
        request_decision(*cfg, *req) is NotFound ==> (r matches HandlerStep::Respond(resp)
            && resp.status == 404 && resp.body@ == not_found_body()),
        request_decision(*cfg, *req) matches RequestDecision::Reject(reason) ==> (r matches
            HandlerStep::Respond(resp) && resp.status == reject_status(reason) && resp.body@
            == reject_body(reason)),
        request_decision(*cfg, *req) matches RequestDecision::Forward(i) ==> (r matches
            HandlerStep::Forward(n, msg) && notification_matches(
            n,
            cfg.providers@[i].name@,
            req.body@,
        ) && msg@ == relay_message_spec(n)),
{
    match cfg.routes.route(&req.method, &req.path) {
        None => {
            return HandlerStep::Respond(not_found_response());
        },
        Some(RouteTarget::WebhookBuild) => {},
    }
    assert(route_of(cfg.routes.entries@, req.method@, req.path@) == Some(
        RouteTarget::WebhookBuild,
    ));
    if req.body.len() > cfg.max_body_bytes {
        return HandlerStep::Respond(reject_response(RejectReason::PayloadTooLarge));
    }
    let idx = match find_provider(&cfg.providers, &req.headers) {
        None => {
            return HandlerStep::Respond(reject_response(RejectReason::UnknownProvider));
        },
        Some(i) => i,
    };
    proof {
        lemma_provider_index_has_header(cfg.providers@, req.headers@);
    }
    let provider = &cfg.providers[idx];
    let sig = match lookup_header(&req.headers, &provider.signature_header) {
        None => unreached(),
        Some(s) => s,
    };
    if !verify(&provider.secret, &req.body, sig) {
        return HandlerStep::Respond(reject_response(RejectReason::InvalidSignature));
    }
    match extract(&provider.name, &req.body) {
        Err(_) => HandlerStep::Respond(reject_response(RejectReason::MalformedPayload)),
        Ok(n) => {
            let msg = render_message(&n);
            HandlerStep::Forward(n, msg)
        },
    }
}

/// The response to the original caller once a relay attempt has been
/// classified: delivered means 200, anything else is reported only as an
/// opaque 502 — the error detail is for the caller's own log, never echoed.
pub fn relay_response(outcome: &RelayOutcome) -> (r: HttpResponse)
    ensures
        outcome.delivered ==> r.status == 200 && r.body@ == "relayed"@,
        !outcome.delivered ==> r.status == 502 && r.body@ == "relay failed"@,
{
    if outcome.delivered {
        HttpResponse { status: 200, body: "relayed".to_owned() }
    } else {
        HttpResponse { status: 502, body: "relay failed".to_owned() }
    }
}

} // verus!
