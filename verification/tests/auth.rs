use base64::engine::general_purpose::STANDARD;
use base64::Engine;
use ed25519_dalek::{Signer, SigningKey};
use janus::artifacts::ArtifactStore;
use janus::auth::permission::authorize;
use janus::auth::signature::{parse_signature, signature_from_decoded};
use janus::auth::store::{
    is_timely, key_from_decoded, max_signed_request_bytes, verify_timestamp_at,
};
use janus::auth::{
    ArtifactsRead, ArtifactsWrite, AuthContext, AuthError, AuthErrorResponse, AuthRejection,
    AuthStore, JobsRead, JobsRun, LogsRead, RequiredPermission, SignedHeaders,
};
use janus::config::{AuthConfig, AuthServerConfig, JobsConfig};
use janus::digest::sha256_hex;
use janus::names::NameMap;
use janus::protocol::{canonical_signed_request, HeaderText, SIGNATURE_ALGORITHM_ED25519};
use janus::time::{now_rfc3339, UtcInstant};

/// 2026-01-01T00:00:00Z
const NOW: UtcInstant = UtcInstant {
    seconds: 1_767_225_600,
    nanos: 0,
};

fn config(public_key: String) -> AuthConfig {
    AuthConfig {
        mode: "signed".to_string(),
        tokens: vec![],
        servers: vec![AuthServerConfig {
            name: "test-server".to_string(),
            key_id: "test-key".to_string(),
            public_key,
            permissions: vec!["jobs:run".to_string()],
        }],
    }
}

fn auth_store_for_key(signing_key: &SigningKey) -> AuthStore {
    AuthStore::load_from_config(&config(
        STANDARD.encode(signing_key.verifying_key().to_bytes()),
    ))
    .expect("auth should load")
}

fn text(value: &str) -> HeaderText {
    HeaderText::Text(value.to_string())
}

fn signed_headers_at(
    signing_key: &SigningKey,
    key_id: &str,
    method: &str,
    path_and_query: &str,
    body: &[u8],
    nonce: &str,
    timestamp: &str,
) -> SignedHeaders {
    let content_sha256 = sha256_hex(body);
    let canonical =
        canonical_signed_request(method, path_and_query, &content_sha256, timestamp, nonce);
    let signature = signing_key.sign(canonical.as_bytes());
    SignedHeaders {
        key_id: text(key_id),
        timestamp: text(timestamp),
        nonce: text(nonce),
        content_sha256: text(&content_sha256),
        signature: text(&format!(
            "{SIGNATURE_ALGORITHM_ED25519}:{}",
            STANDARD.encode(signature.to_bytes())
        )),
    }
}

fn signed_headers(
    signing_key: &SigningKey,
    key_id: &str,
    method: &str,
    path_and_query: &str,
    body: &[u8],
    nonce: &str,
) -> SignedHeaders {
    signed_headers_at(
        signing_key,
        key_id,
        method,
        path_and_query,
        body,
        nonce,
        &now_rfc3339(),
    )
}

#[test]
fn verifies_signed_request() {
    let signing_key = SigningKey::from_bytes(&[7_u8; 32]);
    let mut auth = auth_store_for_key(&signing_key);
    let body = br#"{"commit":"abc123"}"#;
    let headers = signed_headers(
        &signing_key,
        "test-key",
        "POST",
        "/jobs/build/runs",
        body,
        "nonce-1",
    );

    let context = auth
        .verify_request("POST", "/jobs/build/runs", &headers, body)
        .expect("signature should verify");

    assert_eq!(context.server_name, "test-server");
    assert!(context.permissions.contains_name("jobs:run"));
    assert_eq!(context.key_id, "test-key");
}

#[test]
fn rejects_replayed_nonce() {
    let signing_key = SigningKey::from_bytes(&[8_u8; 32]);
    let mut auth = auth_store_for_key(&signing_key);
    let body = b"{}";
    let headers = signed_headers(
        &signing_key,
        "test-key",
        "POST",
        "/jobs/build/runs",
        body,
        "nonce-1",
    );

    auth.verify_request("POST", "/jobs/build/runs", &headers, body)
        .expect("first use should verify");
    let error = auth
        .verify_request("POST", "/jobs/build/runs", &headers, body)
        .expect_err("second use should be rejected");

    assert!(matches!(error, AuthRejection::Replay));
}

#[test]
fn rejects_body_mismatch() {
    let signing_key = SigningKey::from_bytes(&[9_u8; 32]);
    let mut auth = auth_store_for_key(&signing_key);
    let headers = signed_headers(
        &signing_key,
        "test-key",
        "POST",
        "/jobs/build/runs",
        b"{}",
        "nonce-1",
    );
    let error = auth
        .verify_request("POST", "/jobs/build/runs", &headers, br#"{"changed":true}"#)
        .expect_err("changed body should be rejected");

    assert!(matches!(error, AuthRejection::ContentShaMismatch));
}

fn at(seconds: i64) -> UtcInstant {
    UtcInstant {
        seconds: NOW.seconds + seconds,
        nanos: 0,
    }
}

fn headers_now(signing_key: &SigningKey, nonce: &str) -> SignedHeaders {
    signed_headers_at(
        signing_key,
        "test-key",
        "GET",
        "/jobs",
        b"",
        nonce,
        "2026-01-01T00:00:00Z",
    )
}

#[test]
fn requests_are_timely_and_fresh() {
    let signing_key = SigningKey::from_bytes(&[1_u8; 32]);
    let mut auth = auth_store_for_key(&signing_key);
    let mut verify = |headers: &SignedHeaders, now: UtcInstant| {
        auth.verify_request_at("GET", "/jobs", headers, b"", &now)
            .map(|context| context.server_name)
    };
    assert!(matches!(
        verify(&headers_now(&signing_key, "n0"), at(301)),
        Err(AuthRejection::InvalidTimestamp)
    ));
    assert!(matches!(
        verify(&headers_now(&signing_key, "n0"), at(-301)),
        Err(AuthRejection::InvalidTimestamp)
    ));
    assert_eq!(
        verify(&headers_now(&signing_key, "n0"), at(-300)).expect("timely"),
        "test-server"
    );
    assert!(matches!(
        verify(&headers_now(&signing_key, "n0"), at(300)),
        Err(AuthRejection::Replay)
    ));
    assert!(verify(&headers_now(&signing_key, "n1"), at(300)).is_ok());
    for bad in ["", "   ", "\u{2003}", &"x".repeat(129)] {
        assert!(matches!(
            verify(&headers_now(&signing_key, bad), at(0)),
            Err(AuthRejection::InvalidNonce)
        ));
    }
}

#[test]
fn requests_are_signed_by_known_keys() {
    let signing_key = SigningKey::from_bytes(&[1_u8; 32]);
    let other = SigningKey::from_bytes(&[2_u8; 32]);
    let mut auth = auth_store_for_key(&signing_key);
    let mut verify = |headers: &SignedHeaders, path: &str| {
        auth.verify_request_at("GET", path, headers, b"", &NOW)
            .err()
            .map(|rejection| rejection.code())
    };
    assert_eq!(
        verify(&headers_now(&other, "a"), "/jobs"),
        Some("auth_invalid_signature")
    );
    assert_eq!(
        verify(&headers_now(&signing_key, "b"), "/other"),
        Some("auth_invalid_signature")
    );
    let mut unknown = headers_now(&signing_key, "c");
    unknown.key_id = text("nobody");
    assert_eq!(verify(&unknown, "/jobs"), Some("auth_invalid_key_id"));
    let mut missing = headers_now(&signing_key, "d");
    missing.nonce = HeaderText::Missing;
    assert_eq!(
        verify(&missing, "/jobs"),
        Some("auth_missing_authorization")
    );
    let mut binary = headers_now(&signing_key, "e");
    binary.signature = HeaderText::NotText("x".to_string());
    assert_eq!(
        verify(&binary, "/jobs"),
        Some("auth_invalid_authorization_header")
    );
    let mut plain = headers_now(&signing_key, "f");
    plain.signature = text("rsa:AAAA");
    assert_eq!(
        verify(&plain, "/jobs"),
        Some("auth_invalid_authorization_header")
    );
    assert_eq!(verify(&headers_now(&signing_key, "f2"), "/jobs"), None);
}

#[test]
fn a_nonce_is_spent_even_where_the_signature_fails() {
    let signing_key = SigningKey::from_bytes(&[1_u8; 32]);
    let other = SigningKey::from_bytes(&[2_u8; 32]);
    let mut auth = auth_store_for_key(&signing_key);
    assert!(matches!(
        auth.verify_request_at("GET", "/jobs", &headers_now(&other, "n"), b"", &NOW),
        Err(AuthRejection::InvalidSignature)
    ));
    assert!(matches!(
        auth.verify_request_at("GET", "/jobs", &headers_now(&signing_key, "n"), b"", &NOW),
        Err(AuthRejection::Replay)
    ));
}

#[test]
fn configurations_are_checked() {
    let signing_key = SigningKey::from_bytes(&[3_u8; 32]);
    let key = STANDARD.encode(signing_key.verifying_key().to_bytes());
    assert!(AuthStore::load_from_config(&config(format!("  {key}\n"))).is_ok());
    let mut bearer = config(key.clone());
    bearer.mode = "bearer".to_string();
    assert_eq!(
        AuthStore::load_from_config(&bearer)
            .expect_err("mode")
            .message(),
        "unsupported auth mode: bearer"
    );
    let mut empty = config(key);
    empty.servers.clear();
    assert!(matches!(
        AuthStore::load_from_config(&empty),
        Err(AuthError::NoTrustedServers)
    ));
    for bad in ["not base64!", "AAAA"] {
        assert_eq!(
            AuthStore::load_from_config(&config(bad.to_string()))
                .expect_err("key")
                .message(),
            "invalid public key for test-key"
        );
    }
    // 32 bytes that are no point on the curve
    let mut off_curve = [0_u8; 32];
    off_curve[0] = 2;
    assert!(key_from_decoded(Some(off_curve.to_vec())).is_none());
    assert!(key_from_decoded(Some(signing_key.verifying_key().to_bytes().to_vec())).is_some());
    assert!(key_from_decoded(None).is_none());
}

#[test]
fn signatures_are_read_from_headers() {
    let bytes = vec![5_u8; 64];
    let header = format!("ed25519:{}", STANDARD.encode(&bytes));
    assert_eq!(parse_signature(&header).expect("64 bytes"), bytes);
    assert!(parse_signature("ed25519").is_err());
    assert!(parse_signature("ed25519:????").is_err());
    assert!(parse_signature("ed25519:AAAA").is_err());
    assert_eq!(
        signature_from_decoded(Some(bytes.clone())).expect("64 bytes"),
        bytes
    );
    assert!(signature_from_decoded(Some(vec![1])).is_err());
    assert!(signature_from_decoded(None).is_err());
}

#[test]
fn timestamps_have_to_be_times() {
    assert!(verify_timestamp_at("2026-01-01T00:05:00.9Z", &NOW).is_ok());
    assert!(verify_timestamp_at("2026-01-01T00:05:01Z", &NOW).is_err());
    assert!(verify_timestamp_at("2026-01-01T01:00:00+01:00", &NOW).is_ok());
    assert!(verify_timestamp_at("yesterday", &NOW).is_err());
    assert!(is_timely(&at(300), &NOW));
    assert!(!is_timely(&at(301), &NOW));
}

fn context(permission: &str) -> AuthContext {
    let mut permissions = NameMap::new();
    permissions.insert(permission.to_string(), ());
    AuthContext {
        key_id: "k".to_string(),
        server_name: "s".to_string(),
        permissions,
    }
}

fn status<P: RequiredPermission>(context: Option<&AuthContext>) -> u16 {
    match authorize::<P>(context) {
        Ok(authorized) => {
            assert_eq!(authorized.token_name(), "s");
            assert_eq!(authorized.clone().token_name(), "s");
            200
        }
        Err(rejection) => rejection.status_code(),
    }
}

#[test]
fn protected_routes_enforce_permissions() {
    assert_eq!(status::<JobsRead>(Some(&context("jobs:run"))), 403);
    assert_eq!(status::<JobsRun>(Some(&context("jobs:read"))), 403);
    assert_eq!(status::<JobsRead>(Some(&context("logs:read"))), 403);
    assert_eq!(status::<JobsRun>(Some(&context("jobs:read"))), 403);
    assert_eq!(status::<LogsRead>(Some(&context("jobs:read"))), 403);
    assert_eq!(status::<ArtifactsWrite>(Some(&context("artifacts:read"))), 403);
    assert_eq!(status::<ArtifactsRead>(Some(&context("jobs:read"))), 403);
    assert_eq!(status::<JobsRead>(None), 401);
    assert_eq!(status::<JobsRun>(Some(&context("jobs:run"))), 200);
    assert_eq!(status::<ArtifactsRead>(Some(&context("artifacts:read"))), 200);
    let rejection = authorize::<LogsRead>(Some(&context("jobs:read"))).expect_err("no permission");
    let response = AuthErrorResponse::from_rejection(&rejection);
    assert_eq!(response.code, "auth_missing_permission");
    assert_eq!(
        response.message,
        "server s does not have required permission logs:read"
    );
}

#[test]
fn rejections_have_their_status() {
    assert_eq!(AuthRejection::RequestTooLarge.status_code(), 413);
    assert_eq!(AuthRejection::Replay.status_code(), 401);
    assert_eq!(
        AuthRejection::Replay.message(),
        "request nonce was already used"
    );
    assert_eq!(AuthRejection::InvalidBodyLimit.code(), "auth_invalid_body_limit");
}

#[test]
fn signed_bodies_are_as_large_as_the_largest_endpoint() {
    let jobs = |max_request_body_kb: u64| JobsConfig {
        default_log_limit_mb: 1,
        cleanup_successful_workdirs: false,
        keep_failed_workdirs: false,
        max_request_body_kb,
        max_run_requests_per_minute: 1,
    };
    let artifacts = ArtifactStore::new("/data", 1, 1, false).expect("artifacts");
    assert_eq!(
        max_signed_request_bytes(&jobs(64), &artifacts).expect("limit"),
        1024 * 1024
    );
    assert_eq!(
        max_signed_request_bytes(&jobs(2048), &artifacts).expect("limit"),
        2048 * 1024
    );
    assert!(matches!(
        max_signed_request_bytes(&jobs(u64::MAX), &artifacts),
        Err(AuthRejection::InvalidBodyLimit)
    ));
}

#[test]
fn a_nonce_stays_spent_while_other_requests_come() {
    let signing_key = SigningKey::from_bytes(&[1_u8; 32]);
    let mut auth = auth_store_for_key(&signing_key);
    let mut verify = |nonce: &str, now: UtcInstant| {
        auth.verify_request_at("GET", "/jobs", &headers_now(&signing_key, nonce), b"", &now)
            .err()
            .map(|rejection| rejection.code())
    };
    assert_eq!(verify("n", at(-300)), None);
    for (i, nonce) in ["a", "b", "c"].iter().enumerate() {
        assert_eq!(verify(nonce, at(i as i64)), None);
    }
    assert_eq!(verify("n", at(300)), Some("auth_replay"));
}
