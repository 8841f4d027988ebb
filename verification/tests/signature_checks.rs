use hmac::Mac;
use webhook_relay::signature::verify;

/// The hex HMAC-SHA256 signature a genuine provider would send.
fn sign(secret: &[u8], body: &[u8]) -> String {
    let mut mac = hmac::Hmac::<sha2::Sha256>::new_from_slice(secret).unwrap();
    mac.update(body);
    hex::encode(mac.finalize().into_bytes())
}

#[test]
fn verify_accepts_the_true_signature() {
    let secret = b"s3cr3t".to_vec();
    let body = b"{\"status\":\"success\",\"project\":\"demo\"}".to_vec();
    let good = sign(&secret, &body).into_bytes();
    assert!(verify(&secret, &body, &good));
}

#[test]
fn verify_rejects_everything_else() {
    let secret = b"s3cr3t".to_vec();
    let body = b"{\"status\":\"success\",\"project\":\"demo\"}".to_vec();
    let good = sign(&secret, &body);

    assert!(!verify(&secret, &body, &b"deadbeef".to_vec()));
    assert!(!verify(&secret, &body, &Vec::new()));
    assert!(!verify(&secret, &body, &good.to_uppercase().into_bytes()));
    let truncated = good.as_bytes()[..good.len() - 1].to_vec();
    assert!(!verify(&secret, &body, &truncated));
    let mut flipped = good.clone().into_bytes();
    flipped[0] = if flipped[0] == b'0' { b'1' } else { b'0' };
    assert!(!verify(&secret, &body, &flipped));
    // wrong secret
    assert!(!verify(&b"other".to_vec(), &body, &good.into_bytes()));
}

#[test]
fn verification_is_byte_exact() {
    let secret = b"s3cr3t".to_vec();
    let original = b"{\"status\":\"success\",\"project\":\"demo\"}".to_vec();
    // The same JSON document, reprinted with different whitespace.
    let reprinted = b"{ \"status\": \"success\", \"project\": \"demo\" }".to_vec();

    // Semantically the two bodies are the same document ...
    let a: serde_json::Value = serde_json::from_slice(&original).unwrap();
    let b: serde_json::Value = serde_json::from_slice(&reprinted).unwrap();
    assert_eq!(a, b);

    // ... but a signature over the original bytes must not accept the reprint.
    let sig = sign(&secret, &original).into_bytes();
    assert!(verify(&secret, &original, &sig));
    assert!(!verify(&secret, &reprinted, &sig));
}

#[test]
fn verify_handles_empty_and_binary_inputs() {
    let secret = b"".to_vec();
    let body = Vec::new();
    let sig = sign(&secret, &body).into_bytes();
    assert!(verify(&secret, &body, &sig));

    let binary_body = vec![0u8, 255, 13, 10, 0, 128];
    let sig2 = sign(b"k", &binary_body).into_bytes();
    assert!(verify(&b"k".to_vec(), &binary_body, &sig2));
    assert!(!verify(&b"k".to_vec(), &body, &sig2));
}
