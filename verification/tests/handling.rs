use hmac::Mac;
use webhook_relay::handler::{
    handle_request, relay_response, HandlerConfig, HandlerStep, IncomingRequest, ProviderConfig,
};
use webhook_relay::notification::{BuildStatus, RelayOutcome};
use webhook_relay::relay::transport_failure;
use webhook_relay::router::{RouteTarget, RoutingTable};

fn sign(secret: &[u8], body: &[u8]) -> String {
    let mut mac = hmac::Hmac::<sha2::Sha256>::new_from_slice(secret).unwrap();
    mac.update(body);
    hex::encode(mac.finalize().into_bytes())
}

fn config() -> HandlerConfig {
    HandlerConfig::new(
        vec![ProviderConfig {
            name: "vercel".to_string(),
            signature_header: b"x-vercel-signature".to_vec(),
            secret: b"s3cr3t".to_vec(),
        }],
        1024 * 1024,
    )
}

fn request(method: &str, path: &str, headers: Vec<(&str, &str)>, body: &[u8]) -> IncomingRequest {
    IncomingRequest {
        method: method.as_bytes().to_vec(),
        path: path.as_bytes().to_vec(),
        headers: headers
            .into_iter()
            .map(|(k, v)| (k.as_bytes().to_vec(), v.as_bytes().to_vec()))
            .collect(),
        body: body.to_vec(),
    }
}

const BODY: &[u8] = b"{\"status\":\"success\",\"project\":\"demo\"}";

#[test]
fn unknown_route_is_always_404() {
    let cfg = config();
    let signature = sign(b"s3cr3t", BODY);
    let cases = vec![
        request("GET", "/webhooks/build", vec![], b""),
        request("POST", "/webhooks/other", vec![], BODY),
        request("GET", "/", vec![("x-vercel-signature", &signature)], BODY),
        request("DELETE", "/webhooks/build", vec![("x-vercel-signature", &signature)], BODY),
        request("post", "/webhooks/build", vec![], BODY),
        request("POST", "/Webhooks/Build", vec![], BODY),
    ];
    for req in cases {
        match handle_request(&cfg, &req) {
            HandlerStep::Respond(resp) => {
                assert_eq!(resp.status, 404);
                assert_eq!(resp.body, "not found");
            }
            HandlerStep::Forward(..) => panic!("an unmatched route must never forward"),
        }
    }
}

#[test]
fn valid_signature_with_unparsable_body_is_400() {
    let cfg = config();
    let body = b"this is not json";
    let signature = sign(b"s3cr3t", body);
    let req = request(
        "POST",
        "/webhooks/build",
        vec![("x-vercel-signature", &signature)],
        body,
    );
    match handle_request(&cfg, &req) {
        HandlerStep::Respond(resp) => {
            assert_eq!(resp.status, 400);
            assert_eq!(resp.body, "malformed payload");
        }
        HandlerStep::Forward(..) => panic!("an unparsable body must never forward"),
    }
}

#[test]
fn invalid_signature_never_forwards() {
    let cfg = config();
    let req = request(
        "POST",
        "/webhooks/build",
        vec![("x-vercel-signature", "deadbeef")],
        BODY,
    );
    match handle_request(&cfg, &req) {
        HandlerStep::Respond(resp) => {
            assert_eq!(resp.status, 401);
            assert_eq!(resp.body, "invalid signature");
        }
        HandlerStep::Forward(..) => panic!("an invalid signature must never forward"),
    }
}

#[test]
fn missing_identifying_header_is_401() {
    let cfg = config();
    let req = request("POST", "/webhooks/build", vec![("content-type", "application/json")], BODY);
    match handle_request(&cfg, &req) {
        HandlerStep::Respond(resp) => {
            assert_eq!(resp.status, 401);
            assert_eq!(resp.body, "unknown provider");
        }
        HandlerStep::Forward(..) => panic!("an unidentified provider must never forward"),
    }
}

#[test]
fn oversized_body_is_rejected_before_everything_else() {
    let cfg = HandlerConfig::new(
        vec![ProviderConfig {
            name: "vercel".to_string(),
            signature_header: b"x-vercel-signature".to_vec(),
            secret: b"s3cr3t".to_vec(),
        }],
        8,
    );
    let signature = sign(b"s3cr3t", BODY);
    let req = request(
        "POST",
        "/webhooks/build",
        vec![("x-vercel-signature", &signature)],
        BODY,
    );
    match handle_request(&cfg, &req) {
        HandlerStep::Respond(resp) => {
            assert_eq!(resp.status, 413);
            assert_eq!(resp.body, "payload too large");
        }
        HandlerStep::Forward(..) => panic!("an oversized body must never forward"),
    }
}

#[test]
fn verified_request_forwards_once_with_normalized_fields() {
    let cfg = config();
    let signature = sign(b"s3cr3t", BODY);
    let req = request(
        "POST",
        "/webhooks/build",
        vec![("x-vercel-signature", &signature)],
        BODY,
    );
    match handle_request(&cfg, &req) {
        HandlerStep::Forward(n, message) => {
            assert_eq!(n.status, BuildStatus::Success);
            assert_eq!(n.project, "demo");
            assert_eq!(n.source_provider, "vercel");
            let v: serde_json::Value = serde_json::from_str(&message).unwrap();
            assert_eq!(v["content"].as_str().unwrap(), "success: demo");
        }
        HandlerStep::Respond(resp) => panic!("expected a forward step, got status {}", resp.status),
    }
    // A delivered relay maps to 200 for the original caller.
    let ok = RelayOutcome { delivered: true, http_status: Some(204), error_detail: None };
    assert_eq!(relay_response(&ok).status, 200);
}

#[test]
fn header_names_match_case_insensitively() {
    let cfg = config();
    let signature = sign(b"s3cr3t", BODY);
    let req = request(
        "POST",
        "/webhooks/build",
        vec![("X-Vercel-Signature", &signature)],
        BODY,
    );
    assert!(matches!(handle_request(&cfg, &req), HandlerStep::Forward(..)));
}

#[test]
fn relay_timeout_maps_to_502() {
    // A downstream timeout is classified as a transport failure; the
    // original caller sees an opaque 502 and the handler makes no second
    // attempt: one request yields exactly one step.
    let outcome = transport_failure("relay timed out".to_string());
    let resp = relay_response(&outcome);
    assert_eq!(resp.status, 502);
    assert_eq!(resp.body, "relay failed");
}

#[test]
fn redelivery_triggers_an_independent_second_relay() {
    // No idempotence is claimed for the relay: handling the identical
    // request again yields a second forward step with its own message.
    let cfg = config();
    let signature = sign(b"s3cr3t", BODY);
    let req = request(
        "POST",
        "/webhooks/build",
        vec![("x-vercel-signature", &signature)],
        BODY,
    );
    let first = handle_request(&cfg, &req);
    let second = handle_request(&cfg, &req);
    match (first, second) {
        (HandlerStep::Forward(_, m1), HandlerStep::Forward(_, m2)) => {
            assert_eq!(m1, m2);
        }
        _ => panic!("both deliveries of a valid request must forward"),
    }
}

#[test]
fn providers_are_identified_by_their_own_header() {
    let cfg = HandlerConfig::new(
        vec![
            ProviderConfig {
                name: "vercel".to_string(),
                signature_header: b"x-vercel-signature".to_vec(),
                secret: b"s3cr3t".to_vec(),
            },
            ProviderConfig {
                name: "hop".to_string(),
                signature_header: b"x-hop-signature".to_vec(),
                secret: b"h0psecret".to_vec(),
            },
        ],
        1024 * 1024,
    );
    // Only the second provider's header is present: its secret must be the
    // one the signature is checked against, and its name the source.
    let signature = sign(b"h0psecret", BODY);
    let req = request(
        "POST",
        "/webhooks/build",
        vec![("x-hop-signature", &signature)],
        BODY,
    );
    match handle_request(&cfg, &req) {
        HandlerStep::Forward(n, _) => assert_eq!(n.source_provider, "hop"),
        HandlerStep::Respond(resp) => panic!("expected a forward step, got status {}", resp.status),
    }
    // The same signature under the wrong provider's header fails.
    let wrong = request(
        "POST",
        "/webhooks/build",
        vec![("x-vercel-signature", &signature)],
        BODY,
    );
    match handle_request(&cfg, &wrong) {
        HandlerStep::Respond(resp) => assert_eq!(resp.status, 401),
        HandlerStep::Forward(..) => panic!("a signature under the wrong secret must never forward"),
    }
}

#[test]
fn routing_table_matches_in_entry_order() {
    let mut table = RoutingTable::new();
    table.add_route(b"POST".to_vec(), b"/webhooks/build".to_vec(), RouteTarget::WebhookBuild);
    assert_eq!(
        table.route(&b"POST".to_vec(), &b"/webhooks/build".to_vec()),
        Some(RouteTarget::WebhookBuild)
    );
    assert_eq!(table.route(&b"GET".to_vec(), &b"/webhooks/build".to_vec()), None);
    assert_eq!(table.route(&b"POST".to_vec(), &b"/webhooks/buil".to_vec()), None);
    let empty = RoutingTable::new();
    assert_eq!(empty.route(&b"POST".to_vec(), &b"/webhooks/build".to_vec()), None);
}
