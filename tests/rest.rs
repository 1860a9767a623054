use forest_sdk::pipe::{Pipeline, TransformPipe};
use forest_sdk::rest::{bearer_token, check_claims, claims_from_fields, Envelope, JwtClaims, RestPipe, RestPipeConfig, SubmitResponse};
use forest_sdk::{ForestError, ForestResult};
use jsonwebtoken::{encode, Algorithm, EncodingKey, Header};
use std::time::{SystemTime, UNIX_EPOCH};

const SIGNING_KEY_PKCS8: [u8; 138] = [
    0x30, 0x81, 0x87, 0x02, 0x01, 0x00, 0x30, 0x13, 0x06, 0x07, 0x2a, 0x86,
    0x48, 0xce, 0x3d, 0x02, 0x01, 0x06, 0x08, 0x2a, 0x86, 0x48, 0xce, 0x3d,
    0x03, 0x01, 0x07, 0x04, 0x6d, 0x30, 0x6b, 0x02, 0x01, 0x01, 0x04, 0x20,
    0x2e, 0x33, 0x6f, 0x24, 0xc2, 0xaf, 0x13, 0x6c, 0x17, 0x54, 0x9d, 0x93,
    0xf2, 0xf0, 0xf8, 0x6d, 0xd0, 0xc7, 0xa9, 0xa4, 0x2b, 0xe0, 0x82, 0xf7,
    0x67, 0xc8, 0xc6, 0x41, 0x4c, 0xd8, 0x69, 0xa3, 0xa1, 0x44, 0x03, 0x42,
    0x00, 0x04, 0x6c, 0x57, 0xd4, 0x6d, 0x31, 0x7c, 0xd5, 0xac, 0x8b, 0x77,
    0x83, 0xcb, 0x02, 0xea, 0xd4, 0x6a, 0x21, 0x66, 0xc3, 0x63, 0x2f, 0x73,
    0x1a, 0xd6, 0x35, 0xc8, 0x1d, 0xd0, 0x06, 0x70, 0x31, 0x2c, 0x9f, 0x29,
    0x62, 0x22, 0xff, 0xa2, 0x01, 0xb4, 0x95, 0x89, 0x4b, 0xfd, 0xa2, 0xde,
    0x1c, 0x1f, 0x37, 0x5f, 0xb6, 0xbf, 0xec, 0x1d, 0x29, 0xb3, 0x0d, 0x73,
    0x19, 0x64, 0x85, 0x40, 0x0d, 0x68,
];

const VERIFYING_KEY_SPKI: [u8; 91] = [
    0x30, 0x59, 0x30, 0x13, 0x06, 0x07, 0x2a, 0x86, 0x48, 0xce, 0x3d, 0x02,
    0x01, 0x06, 0x08, 0x2a, 0x86, 0x48, 0xce, 0x3d, 0x03, 0x01, 0x07, 0x03,
    0x42, 0x00, 0x04, 0x6c, 0x57, 0xd4, 0x6d, 0x31, 0x7c, 0xd5, 0xac, 0x8b,
    0x77, 0x83, 0xcb, 0x02, 0xea, 0xd4, 0x6a, 0x21, 0x66, 0xc3, 0x63, 0x2f,
    0x73, 0x1a, 0xd6, 0x35, 0xc8, 0x1d, 0xd0, 0x06, 0x70, 0x31, 0x2c, 0x9f,
    0x29, 0x62, 0x22, 0xff, 0xa2, 0x01, 0xb4, 0x95, 0x89, 0x4b, 0xfd, 0xa2,
    0xde, 0x1c, 0x1f, 0x37, 0x5f, 0xb6, 0xbf, 0xec, 0x1d, 0x29, 0xb3, 0x0d,
    0x73, 0x19, 0x64, 0x85, 0x40, 0x0d, 0x68,
];

/// The verifying key in PEM form: base64 of its DER bytes, in lines of 64.
fn verifying_key_pem() -> Vec<u8> {
    const ALPHABET: &[u8] = b"ABCDEFGHIJKLMNOPQRSTUVWXYZabcdefghijklmnopqrstuvwxyz0123456789+/";
    let mut encoded = String::new();
    for chunk in VERIFYING_KEY_SPKI.chunks(3) {
        let n = (chunk[0] as u32) << 16
            | (*chunk.get(1).unwrap_or(&0) as u32) << 8
            | *chunk.get(2).unwrap_or(&0) as u32;
        for i in 0..4 {
            if i <= chunk.len() {
                encoded.push(ALPHABET[((n >> (18 - 6 * i)) & 63) as usize] as char);
            } else {
                encoded.push('=');
            }
        }
    }
    let mut pem = String::from("-----BEGIN PUBLIC KEY-----\n");
    for line in encoded.as_bytes().chunks(64) {
        pem.push_str(std::str::from_utf8(line).unwrap());
        pem.push('\n');
    }
    pem.push_str("-----END PUBLIC KEY-----\n");
    pem.into_bytes()
}

type Stage = TransformPipe<fn(Envelope) -> ForestResult<Envelope>>;

fn now() -> i64 {
    SystemTime::now().duration_since(UNIX_EPOCH).unwrap().as_secs() as i64
}

fn token(sub: &str, exp: i64, iat: i64) -> String {
    let mut claims = serde_json::Map::new();
    claims.insert("sub".to_string(), serde_json::Value::from(sub));
    claims.insert("exp".to_string(), serde_json::Value::from(exp));
    claims.insert("iat".to_string(), serde_json::Value::from(iat));
    encode(
        &Header::new(Algorithm::ES256),
        &serde_json::Value::Object(claims),
        &EncodingKey::from_ec_der(&SIGNING_KEY_PKCS8),
    )
    .unwrap()
}

fn ingress(allow_all: bool, allowed: &[&str]) -> RestPipe {
    RestPipe::new(RestPipeConfig {
        port: 3000,
        allowed_keys: allowed.iter().map(|k| k.to_string()).collect(),
        allow_all,
        public_key_pem: verifying_key_pem(),
    })
}

fn submit(pipe: &RestPipe, header: Option<&str>, at: i64) -> SubmitResponse {
    let pipeline: Pipeline<Stage> = Pipeline::new();
    pipe.send_message(&pipeline, "bob".to_string(), header, "hello".to_string(), at)
}

#[test]
fn test_jwt_verification() {
    let pipe = ingress(true, &[]);
    let now = now();
    let token = token("test_public_key", now + 3600, now);
    let verified_claims = pipe.verify_jwt(&token, now);
    assert!(verified_claims.is_ok());
}

#[test]
fn verified_claims_match_the_token() {
    let pipe = ingress(false, &["alice"]);
    let now = now();
    let claims = pipe.verify_jwt(&token("alice", now + 60, now - 5), now).unwrap();
    assert_eq!(claims, JwtClaims { sub: "alice".to_string(), exp: now + 60, iat: now - 5 });
}

#[test]
fn token_expiring_now_is_refused() {
    let pipe = ingress(true, &[]);
    let now = now();
    let result = pipe.verify_jwt(&token("alice", now, now - 10), now);
    assert!(matches!(result, Err(ForestError::AuthenticationError(_))));
}

#[test]
fn token_without_a_usable_key_is_refused() {
    let pipe = RestPipe::new(RestPipeConfig {
        port: 3000,
        allowed_keys: Vec::new(),
        allow_all: true,
        public_key_pem: b"not a key".to_vec(),
    });
    let now = now();
    assert!(pipe.verify_jwt(&token("alice", now + 60, now), now).is_err());
    assert!(ingress(true, &[]).verify_jwt("a.b.c", now).is_err());
}

#[test]
fn expired_unauthorized_and_open_requests() {
    let now = now();
    let expired = format!("Bearer {}", token("mallory", now - 3600, now - 7200));
    let closed = ingress(false, &[]);
    assert_eq!(submit(&closed, Some(&expired), now).status(), 401);

    let valid = format!("Bearer {}", token("mallory", now + 3600, now));
    assert_eq!(submit(&closed, Some(&valid), now).status(), 403);

    let open = ingress(true, &[]);
    let response = submit(&open, Some(&valid), now);
    assert_eq!(response.status(), 200);
    assert_eq!(response.body(), "Message sent successfully");
}

#[test]
fn adding_the_sender_admits_the_request() {
    let now = now();
    let header = format!("Bearer {}", token("carol", now + 3600, now));
    let mut pipe = ingress(false, &["dave"]);
    assert_eq!(submit(&pipe, Some(&header), now).status(), 403);
    pipe.add_allowed_key("carol".to_string());
    assert_eq!(submit(&pipe, Some(&header), now).status(), 200);
    pipe.remove_allowed_key("carol");
    assert_eq!(submit(&pipe, Some(&header), now).status(), 403);
}

#[test]
fn missing_or_malformed_header_is_unauthorized() {
    let pipe = ingress(true, &[]);
    let now = now();
    assert_eq!(
        submit(&pipe, None, now),
        SubmitResponse::Unauthorized("Missing or invalid Authorization header".to_string())
    );
    assert_eq!(submit(&pipe, Some("Basic abc"), now).status(), 401);
    assert_eq!(bearer_token(Some("Bearer xyz")), Some("xyz"));
    assert_eq!(bearer_token(Some("bearer xyz")), None);
}

#[test]
fn failing_pipeline_gives_a_failure() {
    let now = now();
    let header = format!("Bearer {}", token("erin", now + 3600, now));
    let pipe = ingress(true, &[]);
    let mut pipeline = Pipeline::new();
    pipeline.add_pipe(TransformPipe::new(|_e: Envelope| -> ForestResult<Envelope> {
        Err(ForestError::NetworkError("down".to_string()))
    }));
    let response = pipe.send_message(&pipeline, "bob".to_string(), Some(&header), "m".to_string(), now);
    assert_eq!(response, SubmitResponse::Failed("Network error: down".to_string()));
    assert_eq!(response.status(), 500);
}

#[test]
fn admission_decisions_on_given_claims() {
    let pipe = ingress(false, &["alice"]);
    let c = |sub: &str, exp: i64, iat: i64| JwtClaims { sub: sub.to_string(), exp, iat };
    assert_eq!(pipe.admit_claims(Ok(c("alice", 100, 10)), 50), Ok(c("alice", 100, 10)));
    assert_eq!(pipe.admit_claims(Ok(c("alice", 100, 10)), 100).unwrap_err().status(), 401);
    assert_eq!(pipe.admit_claims(Ok(c("alice", 100, 60)), 50).unwrap_err().status(), 401);
    assert_eq!(pipe.admit_claims(Ok(c("bob", 100, 10)), 50).unwrap_err().status(), 403);
    let bad = Err(ForestError::AuthenticationError("Invalid JWT".to_string()));
    assert_eq!(pipe.admit_claims(bad, 50).unwrap_err().status(), 401);
    assert!(check_claims(c("x", 5, 0), 4).is_ok());
    assert!(check_claims(c("x", 5, 0), 5).is_err());
    assert!(pipe.verify_sender("alice").is_ok());
    assert!(pipe.verify_sender("bob").is_err());
}

#[test]
fn claims_need_all_three_fields() {
    assert_eq!(
        claims_from_fields(Some("a".to_string()), Some(9), Some(1)),
        Ok(JwtClaims { sub: "a".to_string(), exp: 9, iat: 1 })
    );
    assert_eq!(
        claims_from_fields(Some("a".to_string()), None, Some(1)),
        Err(ForestError::AuthenticationError("Token claims are incomplete".to_string()))
    );
}

#[test]
fn unreadable_key_is_a_configuration_error() {
    let bad = RestPipe::try_new(RestPipeConfig {
        port: 3000,
        allowed_keys: Vec::new(),
        allow_all: true,
        public_key_pem: b"not a key".to_vec(),
    });
    assert!(matches!(bad, Err(ForestError::ConfigurationError(_))));
    let good = RestPipe::try_new(RestPipeConfig {
        port: 3000,
        allowed_keys: Vec::new(),
        allow_all: true,
        public_key_pem: verifying_key_pem(),
    });
    assert!(good.is_ok());
}

fn tag(e: Envelope) -> ForestResult<Envelope> {
    Ok(Envelope { recipient: e.recipient, payload: e.payload + "!" })
}

fn refuse(_e: Envelope) -> ForestResult<Envelope> {
    Err(ForestError::NetworkError("down".to_string()))
}

#[test]
fn respond_runs_the_pipeline_only_when_admitted() {
    let pipe = ingress(false, &["alice"]);
    let c = |sub: &str| JwtClaims { sub: sub.to_string(), exp: 100, iat: 10 };
    let mut passing: Pipeline<Stage> = Pipeline::new();
    passing.add_pipe(TransformPipe::new(tag as fn(Envelope) -> ForestResult<Envelope>));
    let mut failing: Pipeline<Stage> = Pipeline::new();
    failing.add_pipe(TransformPipe::new(refuse as fn(Envelope) -> ForestResult<Envelope>));
    let sent = pipe.respond(&passing, Ok(c("alice")), "bob".to_string(), "m".to_string(), 50);
    assert_eq!(sent, SubmitResponse::Sent);
    let failed = pipe.respond(&failing, Ok(c("alice")), "bob".to_string(), "m".to_string(), 50);
    assert_eq!(failed, SubmitResponse::Failed("Network error: down".to_string()));
    let forbidden = pipe.respond(&failing, Ok(c("eve")), "bob".to_string(), "m".to_string(), 50);
    assert_eq!(
        forbidden,
        SubmitResponse::Forbidden(
            "Authentication error: Sender's public key is not in the allowed list".to_string()
        )
    );
    let expired = pipe.respond(&failing, Ok(c("alice")), "bob".to_string(), "m".to_string(), 100);
    assert_eq!(expired, SubmitResponse::Unauthorized("Authentication error: Token has expired".to_string()));
}
