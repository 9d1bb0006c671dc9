use solana_ed25519::ed_sigs::{SigningKey, VerificationKey};
use solvalmon::auth::auth::{request_to_sign, Auth};
use solvalmon::auth::lib::check_sig;
use solvalmon::auth::signed_payload::{payload_to_sign, SignedPayload};
use solvalmon::config::{Config, KeysConfig};

fn signer() -> (SigningKey, [u8; 32]) {
    let key = SigningKey::from([11u8; 32]);
    let public: [u8; 32] = VerificationKey::from(&key).into();
    (key, public)
}

fn sign(key: &SigningKey, text: &str) -> String {
    let sig = key.sign(text.as_bytes());
    solana_signature::Signature::from(sig.to_bytes()).to_string()
}

fn config(admin: [u8; 32]) -> Config {
    Config {
        primary_id: [1u8; 32],
        vote_id: [2u8; 32],
        admin,
        ledger_dir: "/l".to_string(),
        keys: KeysConfig { primary: "p".to_string(), secondary: "s".to_string() },
    }
}

#[test]
fn signature_checks() {
    let (key, public) = signer();
    let sig = sign(&key, "GET /status");
    assert!(check_sig(&public, &sig, "GET /status"));
    assert!(!check_sig(&public, &sig, "GET /stats"));
    assert!(!check_sig(&[3u8; 32], &sig, "GET /status"));
    assert!(!check_sig(&public, "not-base58-0OIl", "GET /status"));
    assert!(!check_sig(&public, "", "GET /status"));
}

#[test]
fn request_authorisation() {
    let (key, public) = signer();
    let c = config(public);
    assert_eq!(request_to_sign("GET", "/status"), "GET /status");
    let sig = sign(&key, "GET /status");
    assert!(Auth::from_request(&c, "GET", "/status", Some(&sig)).is_some());
    assert!(Auth::from_request(&c, "POST", "/status", Some(&sig)).is_none());
    assert!(Auth::from_request(&c, "GET", "/status", None).is_none());
}

#[test]
fn signed_payloads() {
    let (key, public) = signer();
    let c = config(public);
    let text = payload_to_sign("POST", "/post", "hello");
    assert_eq!(text, "POST /post 2cf24dba5fb0a30e26e83b2ac5b9e29e1b161e5c1fa7425e73043362938b9824");
    let sig = sign(&key, &text);
    assert!(SignedPayload::<u8>::accepted(&c, "POST", "/post", "hello", Some(&sig)));
    assert!(!SignedPayload::<u8>::accepted(&c, "POST", "/post", "hello!", Some(&sig)));
    assert!(!SignedPayload::<u8>::accepted(&c, "POST", "/post", "hello", None));
    let p = SignedPayload::new(5u8);
    assert_eq!(p.inner, 5);
}
