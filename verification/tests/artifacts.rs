use janus::artifact::ArtifactUploadResponse;
use janus::artifacts::api::admit_upload;
use janus::artifacts::store::{checksum_from_headers, iso8601_now_plus, iso8601_plus};
use janus::artifacts::{
    ArtifactEntry, ArtifactError, ArtifactMetadata, ArtifactStore, BlobFile, MetadataFile,
};
use janus::digest::sha256_hex;
use janus::protocol::HeaderText;
use janus::rate_limit::RateLimiter;
use janus::time::UtcInstant;

const SUFFIX: &str = "0123456789abcdef0123456789abcdef";

/// 2026-01-01T00:00:00Z
const NOW: UtcInstant = UtcInstant {
    seconds: 1_767_225_600,
    nanos: 0,
};

fn store(ttl_seconds: u64, require_checksum: bool) -> ArtifactStore {
    ArtifactStore::new("/data", ttl_seconds, 1, require_checksum).expect("store should init")
}

fn later(seconds: i64) -> UtcInstant {
    UtcInstant {
        seconds: NOW.seconds + seconds,
        nanos: 0,
    }
}

#[test]
fn stores_and_reads_artifact() {
    let store = store(3600, true);
    let payload = b"hello world";
    let checksum = sha256_hex(payload);
    assert_eq!(
        checksum,
        "b94d27b9934d3e08a52e52d7da7dabfac484efe37a5380ee9088f7ace2efcde9"
    );

    let metadata = store
        .store_bytes(payload, Some(&checksum))
        .expect("artifact should store");
    assert!(metadata.artifact_id.starts_with("art_"));
    assert_eq!(metadata.artifact_id.len(), 36);
    assert_eq!(metadata.size, 11);
    assert_eq!(metadata.sha256, checksum);

    let stored = store
        .load(
            &metadata.artifact_id,
            &MetadataFile::Parsed(metadata.clone()),
            BlobFile::Bytes(payload.to_vec()),
        )
        .expect("artifact should load");
    assert_eq!(stored.metadata, metadata);
    assert_eq!(stored.bytes, payload);
}

#[test]
fn rejects_checksum_mismatch() {
    let error = store(3600, true)
        .store_bytes(b"hello world", Some("deadbeef"))
        .expect_err("checksum mismatch must fail");

    assert!(matches!(error, ArtifactError::ChecksumMismatch { .. }));
}

#[test]
fn rejects_artifacts_over_limit() {
    let payload = vec![b'a'; (1024 * 1024) + 1];

    let error = store(3600, false)
        .store_bytes(&payload, None)
        .expect_err("oversized artifact must fail");

    assert!(matches!(error, ArtifactError::TooLarge { .. }));
    assert_eq!(
        error.message(),
        "artifact exceeds size limit: got 1048577 bytes, max 1048576 bytes"
    );
}

#[test]
fn uploads_and_downloads_through_http() {
    let store = store(3600, true);
    let mut limiter = RateLimiter::new();
    let payload = b"artifact-body";
    let header = HeaderText::Text(sha256_hex(payload));
    let checksum = admit_upload(&mut limiter, "writer", 60, header, &store, 0)
        .expect("upload should be admitted");
    let metadata = store
        .store_bytes(payload, checksum.as_deref())
        .expect("upload should store");
    let response = ArtifactUploadResponse::from(metadata.clone());
    assert_eq!(response.size, 13);
    assert_eq!(response.sha256, sha256_hex(payload));

    let download = store
        .load(
            &response.artifact_id,
            &MetadataFile::Parsed(metadata),
            BlobFile::Bytes(payload.to_vec()),
        )
        .expect("download should succeed");
    assert_eq!(download.bytes, payload);
}

#[test]
fn rejects_download_of_expired_artifact() {
    let store = store(3600, true);
    let payload = b"artifact-body";
    let checksum = sha256_hex(payload);
    let mut metadata = store
        .store_bytes(payload, Some(&checksum))
        .expect("artifact should store");
    metadata.expires_at = "1970-01-01T00:00:00Z".to_string();

    let error = store
        .load(
            &metadata.artifact_id.clone(),
            &MetadataFile::Parsed(metadata),
            BlobFile::Bytes(payload.to_vec()),
        )
        .expect_err("expired artifact is gone");
    assert_eq!(error.status_code(), 404);
}

#[test]
fn rejects_checksum_header_with_invalid_length() {
    let error = checksum_from_headers(HeaderText::Text("deadbeef".to_string()), true)
        .expect_err("short header must fail");
    assert_eq!(error.status_code(), 400);
    assert_eq!(
        error.message(),
        "invalid header x-sha256: must be exactly 64 hexadecimal characters"
    );
}

#[test]
fn rejects_checksum_header_with_non_hex_characters() {
    let header = "gggggggggggggggggggggggggggggggggggggggggggggggggggggggggggggggg";
    let error = checksum_from_headers(HeaderText::Text(header.to_string()), true)
        .expect_err("non-hex header must fail");
    assert_eq!(error.status_code(), 400);
    assert_eq!(
        error.message(),
        "invalid header x-sha256: must contain only hexadecimal characters"
    );
}

#[test]
fn rate_limits_artifact_uploads_per_token() {
    let store = store(3600, true);
    let mut limiter = RateLimiter::new();
    let checksum = sha256_hex(b"artifact-body");
    admit_upload(
        &mut limiter,
        "artifacts-write",
        1,
        HeaderText::Text(checksum.clone()),
        &store,
        5,
    )
    .expect("first upload passes");
    let second = admit_upload(
        &mut limiter,
        "artifacts-write",
        1,
        HeaderText::Text(checksum.clone()),
        &store,
        6,
    )
    .expect_err("second upload is too much");

    assert_eq!(second.status_code(), 429);
    assert_eq!(second.retry_after(), Some(60));
    assert_eq!(
        second.message(),
        "token artifacts-write exceeded artifact upload rate limit of 1 requests per 60 seconds"
    );
    admit_upload(
        &mut limiter,
        "someone-else",
        1,
        HeaderText::Text(checksum),
        &store,
        7,
    )
    .expect("another token has its own window");
}

#[test]
fn rejects_invalid_artifact_id_over_http() {
    let error = store(3600, true)
        .load(
            "not-an-artifact-id",
            &MetadataFile::Missing,
            BlobFile::Missing,
        )
        .expect_err("bad id must fail");
    assert_eq!(error.status_code(), 400);
    assert_eq!(error.code(), "artifact_invalid_id");
}

fn entry(metadata: &ArtifactMetadata, blob: BlobFile) -> ArtifactEntry {
    ArtifactEntry::Directory {
        artifact_id: metadata.artifact_id.clone(),
        path: format!("/data/artifacts/{}", metadata.artifact_id),
        metadata: MetadataFile::Parsed(metadata.clone()),
        blob,
    }
}

#[test]
fn cleanup_removes_expired_artifacts() {
    let store = store(0, false);
    let metadata = store
        .store_bytes(b"expired", None)
        .expect("artifact should store");

    let sweep = store.cleanup_expired(&vec![entry(
        &metadata,
        BlobFile::Bytes(b"expired".to_vec()),
    )]);

    assert!(sweep.failure.is_none());
    assert_eq!(
        sweep.removals,
        vec![format!("/data/artifacts/{}", metadata.artifact_id)]
    );
}

#[test]
fn cleanup_keeps_unexpired_artifacts() {
    let store = store(3600, false);
    let metadata = store
        .store_bytes(b"alive", None)
        .expect("artifact should store");

    let sweep = store.cleanup_expired(&vec![entry(&metadata, BlobFile::Missing)]);

    assert!(sweep.failure.is_none());
    assert!(sweep.removals.is_empty());
}

#[test]
fn recovers_artifact_dir_missing_metadata() {
    let sweep = store(3600, false).recover_incomplete_artifacts(&vec![ArtifactEntry::Directory {
        artifact_id: "art_incomplete".to_string(),
        path: "/data/artifacts/art_incomplete".to_string(),
        metadata: MetadataFile::Missing,
        blob: BlobFile::Bytes(b"partial".to_vec()),
    }]);

    assert!(sweep.failure.is_none());
    assert_eq!(sweep.removals, vec!["/data/artifacts/art_incomplete"]);
}

#[test]
fn recovers_artifact_dir_with_mismatched_blob() {
    let metadata = ArtifactMetadata {
        artifact_id: "art_broken".to_string(),
        sha256: sha256_hex(b"expected-bytes"),
        size: "expected-bytes".len() as u64,
        expires_at: "2030-01-01T00:00:00Z".to_string(),
    };
    let sweep = store(3600, false).recover_incomplete_artifacts(&vec![entry(
        &metadata,
        BlobFile::Bytes(b"wrong-bytes".to_vec()),
    )]);

    assert!(sweep.failure.is_none());
    assert_eq!(sweep.removals, vec!["/data/artifacts/art_broken"]);
}

#[test]
fn accepted_bytes_are_described_exactly() {
    let metadata = store(3600, false)
        .store_bytes_at(b"hello world", None, SUFFIX, &NOW)
        .expect("artifact should store");
    assert_eq!(
        metadata.artifact_id,
        "art_0123456789abcdef0123456789abcdef"
    );
    assert_eq!(metadata.size, 11);
    assert_eq!(metadata.expires_at, "2026-01-01T01:00:00Z");
    // upper-case checksums are as good as lower-case ones
    let upper = sha256_hex(b"hello world").to_uppercase();
    assert!(store(3600, true)
        .store_bytes_at(b"hello world", Some(&upper), SUFFIX, &NOW)
        .is_ok());
    assert!(matches!(
        store(3600, true).store_bytes_at(b"hello world", None, SUFFIX, &NOW),
        Err(ArtifactError::MissingChecksum)
    ));
    assert!(matches!(
        store(u64::MAX, false).store_bytes_at(b"x", None, SUFFIX, &NOW),
        Err(ArtifactError::TimeOverflow)
    ));
}

#[test]
fn artifacts_are_handed_out_until_they_expire() {
    let store = store(3600, false);
    let metadata = store
        .store_bytes_at(b"x", None, SUFFIX, &NOW)
        .expect("artifact should store");
    let file = MetadataFile::Parsed(metadata.clone());
    let load = |now: UtcInstant| {
        store.load_at(
            &metadata.artifact_id,
            &file,
            BlobFile::Bytes(b"x".to_vec()),
            &now,
        )
    };
    assert_eq!(load(later(3599)).expect("alive").bytes, b"x");
    assert!(matches!(load(later(3600)), Err(ArtifactError::NotFound(_))));
    assert!(matches!(load(later(9999)), Err(ArtifactError::NotFound(_))));
    assert!(!metadata.is_expired_at(&later(3599)).expect("parses"));
    assert!(metadata.is_expired_at(&later(3600)).expect("parses"));
    // the clock is somewhere after the year 1970
    let old = ArtifactMetadata {
        expires_at: "1970-01-01T00:00:00Z".to_string(),
        ..metadata.clone()
    };
    assert!(old.is_expired().expect("parses"));
    let odd = ArtifactMetadata {
        expires_at: "tomorrow".to_string(),
        ..metadata
    };
    let error = odd.is_expired().expect_err("no time");
    assert!(error
        .message()
        .starts_with("failed to parse artifact expiry tomorrow: "));
    assert_eq!(error.status_code(), 500);
}

#[test]
fn missing_and_broken_files_are_told_apart() {
    let store = store(3600, false);
    let id = format!("art_{SUFFIX}");
    assert!(matches!(
        store.load_metadata(&id, &MetadataFile::Missing),
        Err(ArtifactError::NotFound(_))
    ));
    assert!(matches!(
        store.load_metadata(&id, &MetadataFile::Unreadable("io".to_string())),
        Err(ArtifactError::NotFound(_))
    ));
    assert_eq!(
        store
            .load_metadata(&id, &MetadataFile::Unparsable("eof".to_string()))
            .expect_err("broken")
            .message(),
        format!("failed to parse artifact metadata /data/artifacts/{id}/metadata.json: eof")
    );
    let metadata = store
        .store_bytes_at(b"x", None, SUFFIX, &NOW)
        .expect("artifact should store");
    assert!(matches!(
        store.load_at(
            &id,
            &MetadataFile::Parsed(metadata),
            BlobFile::Unreadable("io".to_string()),
            &NOW
        ),
        Err(ArtifactError::NotFound(_))
    ));
    assert_eq!(
        store.artifact_blob_path(&id),
        format!("/data/artifacts/{id}/blob")
    );
}

#[test]
fn sweeps_stop_at_the_first_failure() {
    let store = store(3600, false);
    let metadata = store
        .store_bytes_at(b"x", None, SUFFIX, &NOW)
        .expect("artifact should store");
    let gone = |name: &str| ArtifactEntry::Directory {
        artifact_id: name.to_string(),
        path: format!("/data/artifacts/{name}"),
        metadata: MetadataFile::Missing,
        blob: BlobFile::Missing,
    };
    let sweep = store.recover_incomplete_artifacts(&vec![
        gone("a"),
        ArtifactEntry::NotDirectory,
        entry(&metadata, BlobFile::Bytes(b"x".to_vec())),
        entry(&metadata, BlobFile::Unreadable("io".to_string())),
        gone("b"),
    ]);
    assert_eq!(sweep.removals, vec!["/data/artifacts/a"]);
    assert_eq!(
        sweep.failure.expect("failure").message(),
        format!("failed to read artifact file /data/artifacts/art_{SUFFIX}/blob: io")
    );
    let sweep = store.cleanup_expired_at(
        &vec![
            gone("a"),
            ArtifactEntry::Unreadable("io".to_string()),
            entry(&metadata, BlobFile::Missing),
        ],
        &later(4000),
    );
    assert!(sweep.removals.is_empty());
    assert!(matches!(
        sweep.failure,
        Some(ArtifactError::InvalidArtifactId(_))
    ));
    let sweep = store.cleanup_expired_at(
        &vec![
            entry(&metadata, BlobFile::Missing),
            ArtifactEntry::Unreadable("io".to_string()),
        ],
        &later(4000),
    );
    assert_eq!(sweep.removals.len(), 1);
    assert_eq!(
        sweep.failure.expect("failure").message(),
        "failed to read artifact directory /data/artifacts: io"
    );
}

#[test]
fn headers_carry_checksums() {
    let good = sha256_hex(b"");
    assert_eq!(
        checksum_from_headers(HeaderText::Text(good.clone()), true).expect("good"),
        Some(good)
    );
    assert_eq!(
        checksum_from_headers(HeaderText::Missing, false).expect("optional"),
        None
    );
    let missing = checksum_from_headers(HeaderText::Missing, true).expect_err("required");
    assert_eq!(missing.message(), "missing required x-sha256 header");
    assert_eq!(missing.code(), "artifact_missing_checksum");
    assert_eq!(
        checksum_from_headers(HeaderText::NotText("not text".to_string()), false)
            .expect_err("binary")
            .message(),
        "invalid header x-sha256: not text"
    );
}

#[test]
fn sizes_that_cannot_be_counted_are_refused() {
    let error = ArtifactStore::new("/data", 1, u64::MAX, false).expect_err("too large");
    assert_eq!(
        error.message(),
        "invalid artifact max size in mb: 18446744073709551615"
    );
    let store = ArtifactStore::new("/data", 1, 3, true).expect("store");
    assert_eq!(store.max_upload_bytes(), 3 * 1024 * 1024);
    assert!(store.require_checksum_on_upload());
}

#[test]
fn expiry_follows_the_clock() {
    assert_eq!(
        iso8601_plus(&NOW, 86_400).expect("in range"),
        "2026-01-02T00:00:00Z"
    );
    let text = iso8601_now_plus(60).expect("in range");
    assert_eq!(text.len(), 20);
    assert!(text.ends_with('Z'));
    assert!(matches!(
        iso8601_now_plus(u64::MAX),
        Err(ArtifactError::TimeOverflow)
    ));
    assert_eq!(
        ArtifactError::TimeOverflow.message(),
        "artifact expiration time overflow"
    );
}

#[test]
fn files_are_stored_under_their_own_checksum() {
    let metadata = store(3600, true)
        .store_file(b"bundle")
        .expect("file should store");
    assert_eq!(metadata.sha256, sha256_hex(b"bundle"));
    assert_eq!(metadata.size, 6);
}

#[test]
fn an_expiry_after_the_year_9999_cannot_be_read_back() {
    let last_second = 253_402_300_799 - NOW.seconds as u64;
    let keep = |ttl_seconds: u64| {
        store(ttl_seconds, false)
            .store_bytes_at(b"x", None, "00112233445566778899aabbccddeeff", &NOW)
            .expect("artifact should store")
    };
    let metadata = keep(last_second);
    assert_eq!(metadata.expires_at, "9999-12-31T23:59:59Z");
    assert_eq!(metadata.is_expired_at(&NOW).expect("readable"), false);

    let metadata = keep(last_second + 1);
    assert_eq!(metadata.expires_at, "+10000-01-01T00:00:00Z");
    let id = metadata.artifact_id.clone();
    assert!(matches!(
        store(1, false).load_at(
            &id,
            &MetadataFile::Parsed(metadata),
            BlobFile::Bytes(b"x".to_vec()),
            &NOW
        ),
        Err(ArtifactError::ParseExpiry { .. })
    ));
}
