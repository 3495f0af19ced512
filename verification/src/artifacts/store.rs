//! The rules of the artifact store: what is accepted, handed out and swept away.
use vstd::prelude::*;

use crate::artifacts::error::{ArtifactError, ArtifactErrorView};
use crate::artifacts::metadata;
use crate::artifacts::metadata::{ArtifactMetadata, ArtifactMetadataView, StoredArtifact};
use crate::digest;
use crate::paths;
use crate::protocol::{HeaderText, HEADER_SHA256};
use crate::text;
use crate::time;
use crate::time::UtcInstant;

verus! {

/// What reading an artifact's metadata file gave. A `String` is the message of
/// the failure.
#[derive(Debug)]
pub enum MetadataFile {
    Missing,
    Unreadable(String),
    Unparsable(String),
    Parsed(ArtifactMetadata),
}

/// What reading an artifact's bytes gave.
#[derive(Debug)]
pub enum BlobFile {
    Missing,
    Unreadable(String),
    Bytes(Vec<u8>),
}

/// An identifier of an artifact: `art_` and 32 hexadecimal digits.
pub open spec fn is_artifact_id(artifact_id: Seq<char>) -> bool {
    digest::is_prefixed_hex_id(artifact_id, "art_"@)
}

pub fn validate_artifact_id(artifact_id: &str) -> (r: Result<(), ArtifactError>)
    ensures
        match r {
            Ok(()) => is_artifact_id(artifact_id@),
            Err(e) => !is_artifact_id(artifact_id@) && e@ == ArtifactErrorView::InvalidArtifactId(
                artifact_id@,
            ),
        },
{
    if digest::validate_prefixed_hex_id(artifact_id, "art_") {
        Ok(())
    } else {
        Err(ArtifactError::InvalidArtifactId(artifact_id.to_owned()))
    }
}

/// Every character is a hexadecimal digit.
pub open spec fn all_hex_digits(value: Seq<char>) -> bool {
    forall|i: int| 0 <= i < value.len() ==> text::is_hex_digit(#[trigger] value[i])
}

/// What is wrong with a checksum header: its length in bytes, then its characters.
pub open spec fn sha256_header_problem(value: Seq<char>) -> Option<ArtifactErrorView> {
    if vstd::utf8::encode_utf8(value).len() != 64 {
        Some(
            ArtifactErrorView::InvalidHeader {
                name: "x-sha256"@,
                message: "must be exactly 64 hexadecimal characters"@,
            },
        )
    } else if !all_hex_digits(value) {
        Some(
            ArtifactErrorView::InvalidHeader {
                name: "x-sha256"@,
                message: "must contain only hexadecimal characters"@,
            },
        )
    } else {
        None
    }
}

pub fn validate_sha256_header(value: &str) -> (r: Result<(), ArtifactError>)
    ensures
        match r {
            Ok(()) => sha256_header_problem(value@) is None,
            Err(e) => sha256_header_problem(value@) == Some(e@),
        },
{
    if value.as_bytes().len() != 64 {
        return Err(
            ArtifactError::InvalidHeader {
                name: HEADER_SHA256,
                message: "must be exactly 64 hexadecimal characters".to_owned(),
            },
        );
    }
    let chars = text::chars_of(value);
    let mut i: usize = 0;
    while i < chars.len()
        invariant
            i <= chars.len(),
            chars@ == value@,
            vstd::utf8::encode_utf8(value@).len() == 64,
            forall|k: int| 0 <= k < i ==> text::is_hex_digit(#[trigger] value@[k]),
        decreases chars.len() - i,
    {
        if !text::hex_digit(chars[i]) {
            assert(!text::is_hex_digit(value@[i as int]));
            return Err(
                ArtifactError::InvalidHeader {
                    name: HEADER_SHA256,
                    message: "must contain only hexadecimal characters".to_owned(),
                },
            );
        }
        i += 1;
    }
    Ok(())
}

/// The checksum that a request's header carries.
pub open spec fn header_checksum(header: HeaderText, required: bool) -> Result<
    Option<Seq<char>>,
    ArtifactErrorView,
> {
    match header {
        HeaderText::Text(value) => match sha256_header_problem(value@) {
            Some(problem) => Err(problem),
            None => Ok(Some(value@)),
        },
        HeaderText::NotText(message) => Err(
            ArtifactErrorView::InvalidHeader { name: "x-sha256"@, message: message@ },
        ),
        HeaderText::Missing => if required {
            Err(ArtifactErrorView::MissingChecksum)
        } else {
            Ok(None)
        },
    }
}

/// An optional text by its characters.
pub open spec fn optional_text(value: Option<String>) -> Option<Seq<char>> {
    match value {
        Some(t) => Some(t@),
        None => None,
    }
}

pub fn checksum_from_headers(header: HeaderText, checksum_required: bool) -> (r: Result<
    Option<String>,
    ArtifactError,
>)
    ensures
        match r {
            Ok(checksum) => header_checksum(header, checksum_required) matches Ok(c) && c
                == optional_text(checksum),
            Err(e) => header_checksum(header, checksum_required) matches Err(problem) && problem
                == e@,
        },
{
    match header {
        HeaderText::Text(value) => {
            validate_sha256_header(value.as_str())?;
            Ok(Some(value))
        },
        HeaderText::NotText(message) => Err(
            ArtifactError::InvalidHeader { name: HEADER_SHA256, message },
        ),
        HeaderText::Missing => if checksum_required {
            Err(ArtifactError::MissingChecksum)
        } else {
            Ok(None)
        },
    }
}

/// `uuid::Uuid::now_v7`, written without hyphens: 32 lower-case hexadecimal
/// digits. Which ones rests on the clock and on chance.
#[verifier::external_body]
fn fresh_uuid() -> (r: String)
    ensures
        r@.len() == 32,
        forall|i: int| 0 <= i < r@.len() ==> text::is_lower_hex_digit(#[trigger] r@[i]),
{
    uuid::Uuid::now_v7().simple().to_string()
}

/// 32 hexadecimal digits that make an identifier.
pub open spec fn is_id_suffix(suffix: Seq<char>) -> bool {
    &&& suffix.len() == 32
    &&& forall|i: int| 0 <= i < suffix.len() ==> text::is_lower_hex_digit(#[trigger] suffix[i])
}

/// An identifier made of such digits is valid.
pub proof fn prefixed_suffix_is_id(prefix: Seq<char>, suffix: Seq<char>)
    requires
        is_id_suffix(suffix),
    ensures
        digest::is_prefixed_hex_id(prefix + suffix, prefix),
{
    let id = prefix + suffix;
    assert(id.subrange(0, prefix.len() as int) =~= prefix);
    assert forall|i: int| prefix.len() <= i < id.len() implies text::is_hex_digit(
        #[trigger] id[i],
    ) by {
        assert(id[i] == suffix[i - prefix.len()]);
    }
}

/// The second at which what is stored now expires; nothing where it lies past
/// the end of the calendar.
pub open spec fn expiry_second(now: UtcInstant, ttl_seconds: u64) -> Option<int> {
    if now.seconds + ttl_seconds <= time::CALENDAR_LAST_SECOND {
        Some(now.seconds + ttl_seconds)
    } else {
        None
    }
}

/// The expiry, as text, of what is stored at `now`.
pub open spec fn expiry_text(now: UtcInstant, ttl_seconds: u64) -> Result<
    Seq<char>,
    ArtifactErrorView,
> {
    match expiry_second(now, ttl_seconds) {
        Some(second) => Ok(time::rfc3339(second)),
        None => Err(ArtifactErrorView::TimeOverflow),
    }
}

/// When what is stored at `now` expires.
pub fn iso8601_plus(now: &UtcInstant, ttl_seconds: u64) -> (r: Result<String, ArtifactError>)
    requires
        now.in_calendar(),
    ensures
        match r {
            Ok(t) => expiry_text(*now, ttl_seconds) matches Ok(e) && e == t@,
            Err(e) => expiry_text(*now, ttl_seconds) matches Err(problem) && problem == e@,
        },
        r matches Ok(t) ==> if time::in_four_digit_year(now.seconds + ttl_seconds) {
            time::reads_as(t@, (now.seconds + ttl_seconds) as i64)
        } else {
            time::unreadable(t@)
        },
{
    let second: i128 = now.seconds as i128 + ttl_seconds as i128;
    if second > time::CALENDAR_LAST_SECOND as i128 {
        return Err(ArtifactError::TimeOverflow);
    }
    Ok(time::format_rfc3339(second as i64))
}

/// When what is stored now, by the clock, expires.
pub fn iso8601_now_plus(ttl_seconds: u64) -> (r: Result<String, ArtifactError>)
    ensures
        exists|now: UtcInstant|
            now.clock_reading() && match r {
                Ok(t) => #[trigger] expiry_text(now, ttl_seconds) matches Ok(e) && e == t@,
                Err(e) => expiry_text(now, ttl_seconds) matches Err(problem) && problem == e@,
            },
{
    let now = time::utc_now();
    iso8601_plus(&now, ttl_seconds)
}

/// Where artifacts lie, how long they are kept, and what an upload has to meet.
#[derive(Debug, Clone)]
pub struct ArtifactStore {
    pub root_dir: String,
    pub ttl_seconds: u64,
    pub max_size_bytes: usize,
    pub require_checksum_on_upload: bool,
}

/// Bytes in that many mebibytes, where 64 bits and the machine can count them.
pub open spec fn mebibytes(max_size_mb: u64) -> Option<usize> {
    if max_size_mb * 1_048_576 <= u64::MAX && max_size_mb * 1_048_576 <= usize::MAX {
        Some((max_size_mb * 1_048_576) as usize)
    } else {
        None
    }
}

impl ArtifactStore {
    pub fn new(
        data_dir: &str,
        ttl_seconds: u64,
        max_size_mb: u64,
        require_checksum_on_upload: bool,
    ) -> (r: Result<Self, ArtifactError>)
        ensures
            match r {
                Ok(store) => {
                    &&& mebibytes(max_size_mb) == Some(store.max_size_bytes)
                    &&& store.root_dir@ == paths::joined(data_dir@, "artifacts"@)
                    &&& store.ttl_seconds == ttl_seconds
                    &&& store.require_checksum_on_upload == require_checksum_on_upload
                },
                Err(e) => mebibytes(max_size_mb) is None && e@ == (
                ArtifactErrorView::InvalidMaxSize { max_size_mb }),
            },
    {
        let bytes: u128 = max_size_mb as u128 * 1_048_576;
        if bytes > u64::MAX as u128 || bytes > usize::MAX as u128 {
            return Err(ArtifactError::InvalidMaxSize { max_size_mb });
        }
        Ok(
            ArtifactStore {
                root_dir: paths::join(data_dir, "artifacts"),
                ttl_seconds,
                max_size_bytes: bytes as usize,
                require_checksum_on_upload,
            },
        )
    }

    pub fn max_upload_bytes(&self) -> (r: usize)
        ensures
            r == self.max_size_bytes,
    {
        self.max_size_bytes
    }

    pub fn require_checksum_on_upload(&self) -> (r: bool)
        ensures
            r == self.require_checksum_on_upload,
    {
        self.require_checksum_on_upload
    }

    /// The directory of an artifact.
    pub open spec fn directory(self, artifact_id: Seq<char>) -> Seq<char> {
        paths::joined(self.root_dir@, artifact_id)
    }

    pub fn artifact_dir(&self, artifact_id: &str) -> (r: String)
        ensures
            r@ == self.directory(artifact_id@),
    {
        paths::join(self.root_dir.as_str(), artifact_id)
    }

    pub fn artifact_blob_path(&self, artifact_id: &str) -> (r: String)
        ensures
            r@ == paths::joined(self.directory(artifact_id@), "blob"@),
    {
        paths::join(self.artifact_dir(artifact_id).as_str(), "blob")
    }

    pub fn artifact_metadata_path(&self, artifact_id: &str) -> (r: String)
        ensures
            r@ == paths::joined(self.directory(artifact_id@), "metadata.json"@),
    {
        paths::join(self.artifact_dir(artifact_id).as_str(), "metadata.json")
    }

    /// What is kept of bytes that arrive at `now` and get the identifier
    /// `art_` and `suffix`: a checksum that is missing though required, bytes
    /// over the limit, and a checksum that does not match are refused.
    pub open spec fn accepted(
        self,
        bytes: Seq<u8>,
        checksum: Option<Seq<char>>,
        suffix: Seq<char>,
        now: UtcInstant,
    ) -> Result<ArtifactMetadataView, ArtifactErrorView> {
        let sha256 = digest::sha256_text(bytes);
        if self.require_checksum_on_upload && checksum is None {
            Err(ArtifactErrorView::MissingChecksum)
        } else if bytes.len() > self.max_size_bytes {
            Err(ArtifactErrorView::TooLarge { size: bytes.len() as usize, max: self.max_size_bytes })
        } else if checksum is Some && !text::equal_ignoring_case(checksum->0, sha256) {
            Err(ArtifactErrorView::ChecksumMismatch { expected: checksum->0, actual: sha256 })
        } else {
            match expiry_text(now, self.ttl_seconds) {
                Err(problem) => Err(problem),
                Ok(expires_at) => Ok(
                    ArtifactMetadataView {
                        artifact_id: "art_"@ + suffix,
                        sha256,
                        size: bytes.len() as u64,
                        expires_at,
                    },
                ),
            }
        }
    }

    /// What was accepted at `now` expires when its time to live is over. Where no
    /// four-digit year holds that second, its expiry cannot be read back.
    pub open spec fn keeps_for_its_time(
        self,
        r: Result<ArtifactMetadata, ArtifactError>,
        now: UtcInstant,
    ) -> bool {
        r matches Ok(m) ==> if time::in_four_digit_year(now.seconds + self.ttl_seconds) {
            expires_exactly_at(m@, (now.seconds + self.ttl_seconds) as i64)
        } else {
            never_readable(m@)
        }
    }

    /// Accepts bytes that arrive at `now` under a given identifier.
    pub fn store_bytes_at(
        &self,
        bytes: &[u8],
        checksum_header: Option<&str>,
        suffix: &str,
        now: &UtcInstant,
    ) -> (r: Result<ArtifactMetadata, ArtifactError>)
        requires
            now.in_calendar(),
        ensures
            accepts(
                r,
                self.accepted(bytes@, time::text_view(checksum_header), suffix@, *now),
            ),
            self.keeps_for_its_time(r, *now),
    {
        if self.require_checksum_on_upload && checksum_header.is_none() {
            return Err(ArtifactError::MissingChecksum);
        }
        if bytes.len() > self.max_size_bytes {
            return Err(ArtifactError::TooLarge { size: bytes.len(), max: self.max_size_bytes });
        }
        let sha256 = digest::sha256_hex(bytes);
        if let Some(expected) = checksum_header {
            if !text::same_ignoring_case(expected, sha256.as_str()) {
                return Err(
                    ArtifactError::ChecksumMismatch {
                        expected: expected.to_owned(),
                        actual: sha256,
                    },
                );
            }
        }
        let mut artifact_id = "art_".to_owned();
        artifact_id.append(suffix);
        let expires_at = iso8601_plus(now, self.ttl_seconds)?;
        Ok(ArtifactMetadata { artifact_id, sha256, size: bytes.len() as u64, expires_at })
    }

    /// Accepts bytes that arrive now, under a fresh identifier.
    pub fn store_bytes(&self, bytes: &[u8], checksum_header: Option<&str>) -> (r: Result<
        ArtifactMetadata,
        ArtifactError,
    >)
        ensures
            exists|suffix: Seq<char>, now: UtcInstant|
                is_id_suffix(suffix) && now.clock_reading() && accepts(
                    r,
                    #[trigger] self.accepted(
                        bytes@,
                        time::text_view(checksum_header),
                        suffix,
                        now,
                    ),
                ) && self.keeps_for_its_time(r, now),
            r matches Ok(m) ==> is_artifact_id(m.artifact_id@),
    {
        let suffix = fresh_uuid();
        let now = time::utc_now();
        proof {
            prefixed_suffix_is_id("art_"@, suffix@);
        }
        self.store_bytes_at(bytes, checksum_header, suffix.as_str(), &now)
    }

    /// Accepts a file's bytes, which bring their own checksum.
    pub fn store_file(&self, bytes: &[u8]) -> (r: Result<ArtifactMetadata, ArtifactError>)
        ensures
            exists|suffix: Seq<char>, now: UtcInstant|
                is_id_suffix(suffix) && now.clock_reading() && accepts(
                    r,
                    #[trigger] self.accepted(
                        bytes@,
                        Some(digest::sha256_text(bytes@)),
                        suffix,
                        now,
                    ),
                ) && self.keeps_for_its_time(r, now),
            r matches Ok(m) ==> is_artifact_id(m.artifact_id@),
    {
        let checksum = digest::sha256_hex(bytes);
        self.store_bytes(bytes, Some(checksum.as_str()))
    }

    /// The metadata of an artifact, given what its metadata file holds.
    pub open spec fn found_metadata(self, artifact_id: Seq<char>, file: MetadataFile) -> Result<
        ArtifactMetadata,
        ArtifactErrorView,
    > {
        if !is_artifact_id(artifact_id) {
            Err(ArtifactErrorView::InvalidArtifactId(artifact_id))
        } else {
            match file {
                MetadataFile::Missing | MetadataFile::Unreadable(_) => Err(
                    ArtifactErrorView::NotFound(artifact_id),
                ),
                MetadataFile::Unparsable(source) => Err(
                    ArtifactErrorView::ParseMetadata {
                        path: paths::joined(self.directory(artifact_id), "metadata.json"@),
                        source: source@,
                    },
                ),
                MetadataFile::Parsed(metadata) => Ok(metadata),
            }
        }
    }

    pub fn load_metadata(&self, artifact_id: &str, file: &MetadataFile) -> (r: Result<
        ArtifactMetadata,
        ArtifactError,
    >)
        ensures
            metadata::yields(r, self.found_metadata(artifact_id@, *file)),
    {
        validate_artifact_id(artifact_id)?;
        match file {
            MetadataFile::Missing | MetadataFile::Unreadable(_) => Err(
                ArtifactError::NotFound(artifact_id.to_owned()),
            ),
            MetadataFile::Unparsable(source) => Err(
                ArtifactError::ParseMetadata {
                    path: self.artifact_metadata_path(artifact_id),
                    source: source.clone(),
                },
            ),
            MetadataFile::Parsed(metadata) => Ok(metadata.clone()),
        }
    }

    /// An artifact at `now`, given what its two files hold. An expired artifact
    /// is not found.
    pub open spec fn found(
        self,
        artifact_id: Seq<char>,
        file: MetadataFile,
        blob: BlobFile,
        now: UtcInstant,
    ) -> Result<(ArtifactMetadata, Seq<u8>), ArtifactErrorView> {
        match self.found_metadata(artifact_id, file) {
            Err(problem) => Err(problem),
            Ok(metadata) => match metadata@.expired(now) {
                Err(problem) => Err(problem),
                Ok(true) => Err(ArtifactErrorView::NotFound(artifact_id)),
                Ok(false) => match blob {
                    BlobFile::Bytes(bytes) => Ok((metadata, bytes@)),
                    _ => Err(ArtifactErrorView::NotFound(artifact_id)),
                },
            },
        }
    }

    /// Hands an artifact out at `now`.
    pub fn load_at(
        &self,
        artifact_id: &str,
        file: &MetadataFile,
        blob: BlobFile,
        now: &UtcInstant,
    ) -> (r: Result<StoredArtifact, ArtifactError>)
        ensures
            hands_out(r, self.found(artifact_id@, *file, blob, *now)),
    {
        let metadata = self.load_metadata(artifact_id, file)?;
        if metadata.is_expired_at(now)? {
            return Err(ArtifactError::NotFound(artifact_id.to_owned()));
        }
        match blob {
            BlobFile::Bytes(bytes) => Ok(StoredArtifact { metadata, bytes }),
            _ => Err(ArtifactError::NotFound(artifact_id.to_owned())),
        }
    }

    /// Hands an artifact out now.
    pub fn load(&self, artifact_id: &str, file: &MetadataFile, blob: BlobFile) -> (r: Result<
        StoredArtifact,
        ArtifactError,
    >)
        ensures
            exists|now: UtcInstant|
                now.clock_reading() && hands_out(
                    r,
                    #[trigger] self.found(artifact_id@, *file, blob, now),
                ),
    {
        let now = time::utc_now();
        self.load_at(artifact_id, file, blob, &now)
    }

    /// Whether an artifact directory is incomplete and can be removed: its
    /// metadata is missing or does not parse, names another artifact, or does
    /// not describe the bytes.
    pub open spec fn incomplete(
        self,
        artifact_id: Seq<char>,
        path: Seq<char>,
        file: MetadataFile,
        blob: BlobFile,
    ) -> Result<bool, ArtifactErrorView> {
        match file {
            MetadataFile::Missing | MetadataFile::Unparsable(_) => Ok(true),
            MetadataFile::Unreadable(source) => Err(
                ArtifactErrorView::ReadFile {
                    path: paths::joined(path, "metadata.json"@),
                    source: source@,
                },
            ),
            MetadataFile::Parsed(metadata) => if metadata.artifact_id@ != artifact_id {
                Ok(true)
            } else {
                match blob {
                    BlobFile::Missing => Ok(true),
                    BlobFile::Unreadable(source) => Err(
                        ArtifactErrorView::ReadFile {
                            path: paths::joined(path, "blob"@),
                            source: source@,
                        },
                    ),
                    BlobFile::Bytes(bytes) => Ok(
                        metadata.size != bytes@.len() || metadata.sha256@ != digest::sha256_text(
                            bytes@,
                        ),
                    ),
                }
            },
        }
    }

    /// Whether the artifact directory at `path`, named after `artifact_id`, is
    /// incomplete and can be removed.
    pub fn artifact_dir_is_recoverable(
        &self,
        artifact_id: &str,
        path: &str,
        file: &MetadataFile,
        blob: &BlobFile,
    ) -> (r: Result<bool, ArtifactError>)
        ensures
            metadata::yields(r, self.incomplete(artifact_id@, path@, *file, *blob)),
    {
        let metadata = match file {
            MetadataFile::Missing | MetadataFile::Unparsable(_) => {
                return Ok(true);
            },
            MetadataFile::Unreadable(source) => {
                return Err(
                    ArtifactError::ReadFile {
                        path: paths::join(path, "metadata.json"),
                        source: source.clone(),
                    },
                );
            },
            MetadataFile::Parsed(metadata) => metadata,
        };
        if !text::same(metadata.artifact_id.as_str(), artifact_id) {
            return Ok(true);
        }
        match blob {
            BlobFile::Missing => Ok(true),
            BlobFile::Unreadable(source) => Err(
                ArtifactError::ReadFile { path: paths::join(path, "blob"), source: source.clone() },
            ),
            BlobFile::Bytes(bytes) => {
                let actual = digest::sha256_hex(bytes.as_slice());
                Ok(
                    metadata.size != bytes.len() as u64 || !text::same(
                        metadata.sha256.as_str(),
                        actual.as_str(),
                    ),
                )
            },
        }
    }

    /// Whether an artifact directory has expired and can be removed; one
    /// without readable metadata is left alone.
    pub open spec fn expired_entry(
        self,
        artifact_id: Seq<char>,
        file: MetadataFile,
        now: UtcInstant,
    ) -> Result<bool, ArtifactErrorView> {
        match self.found_metadata(artifact_id, file) {
            Err(ArtifactErrorView::NotFound(_)) => Ok(false),
            Err(problem) => Err(problem),
            Ok(metadata) => metadata@.expired(now),
        }
    }

    /// Whether an artifact directory has expired at `now`.
    pub fn artifact_dir_is_expired_at(
        &self,
        artifact_id: &str,
        file: &MetadataFile,
        now: &UtcInstant,
    ) -> (r: Result<bool, ArtifactError>)
        ensures
            metadata::yields(r, self.expired_entry(artifact_id@, *file, *now)),
    {
        match self.load_metadata(artifact_id, file) {
            Ok(metadata) => metadata.is_expired_at(now),
            Err(ArtifactError::NotFound(_)) => Ok(false),
            Err(e) => Err(e),
        }
    }

    /// Whether an artifact directory has expired by the clock.
    pub fn artifact_dir_is_expired(&self, artifact_id: &str, file: &MetadataFile) -> (r: Result<
        bool,
        ArtifactError,
    >)
        ensures
            exists|now: UtcInstant|
                now.clock_reading() && metadata::yields(
                    r,
                    #[trigger] self.expired_entry(artifact_id@, *file, now),
                ),
    {
        let now = time::utc_now();
        self.artifact_dir_is_expired_at(artifact_id, file, &now)
    }
}

/// The artifact expires with the start of that second, not before and for good.
pub open spec fn expires_exactly_at(metadata: ArtifactMetadataView, second: i64) -> bool {
    forall|now: UtcInstant|
        #[trigger] metadata.expired(now) == Ok::<bool, ArtifactErrorView>(second <= now.seconds)
}

/// Whether the artifact has expired cannot be told at any time.
pub open spec fn never_readable(metadata: ArtifactMetadataView) -> bool {
    forall|now: UtcInstant|
        #[trigger] metadata.expired(now) == Err::<bool, _>(
            ArtifactErrorView::ParseExpiry {
                expires_at: metadata.expires_at,
                source: time::parsed_rfc3339(metadata.expires_at)->Err_0,
            },
        )
}

/// The upload went as expected, metadata and errors taken by their views.
pub open spec fn accepts(
    r: Result<ArtifactMetadata, ArtifactError>,
    expected: Result<ArtifactMetadataView, ArtifactErrorView>,
) -> bool {
    match r {
        Ok(m) => expected matches Ok(view) && view == m@,
        Err(e) => expected matches Err(problem) && problem == e@,
    }
}

/// The request for an artifact went as expected.
pub open spec fn hands_out(
    r: Result<StoredArtifact, ArtifactError>,
    expected: Result<(ArtifactMetadata, Seq<u8>), ArtifactErrorView>,
) -> bool {
    match r {
        Ok(artifact) => expected matches Ok(pair) && pair == (artifact.metadata, artifact.bytes@),
        Err(e) => expected matches Err(problem) && problem == e@,
    }
}

/// What was accepted and lies complete on disk is handed out as it came in,
/// until it expires.
pub proof fn accepted_is_handed_out(
    store: ArtifactStore,
    bytes: Seq<u8>,
    checksum: Option<Seq<char>>,
    suffix: Seq<char>,
    now: UtcInstant,
    metadata: ArtifactMetadata,
    blob: Vec<u8>,
    later: UtcInstant,
)
    requires
        is_id_suffix(suffix),
        store.accepted(bytes, checksum, suffix, now) == Ok::<_, ArtifactErrorView>(metadata@),
        blob@ == bytes,
        metadata@.expired(later) == Ok::<bool, ArtifactErrorView>(false),
    ensures
        store.found(
            metadata.artifact_id@,
            MetadataFile::Parsed(metadata),
            BlobFile::Bytes(blob),
            later,
        ) == Ok::<_, ArtifactErrorView>((metadata, bytes)),
{
    prefixed_suffix_is_id("art_"@, suffix);
}

/// What was accepted and lies complete on disk is handed out as it came in
/// before the second at which it expires, and not found from then on.
pub proof fn accepted_is_handed_out_until_it_expires(
    store: ArtifactStore,
    bytes: Seq<u8>,
    checksum: Option<Seq<char>>,
    suffix: Seq<char>,
    now: UtcInstant,
    metadata: ArtifactMetadata,
    blob: Vec<u8>,
    expiry: i64,
    later: UtcInstant,
)
    requires
        is_id_suffix(suffix),
        store.accepted(bytes, checksum, suffix, now) == Ok::<_, ArtifactErrorView>(metadata@),
        blob@ == bytes,
        expires_exactly_at(metadata@, expiry),
    ensures
        store.found(
            metadata.artifact_id@,
            MetadataFile::Parsed(metadata),
            BlobFile::Bytes(blob),
            later,
        ) == if later.seconds < expiry {
            Ok((metadata, bytes))
        } else {
            Err(ArtifactErrorView::NotFound(metadata.artifact_id@))
        },
{
    prefixed_suffix_is_id("art_"@, suffix);
    assert(metadata@.expired(later) == Ok::<bool, ArtifactErrorView>(expiry <= later.seconds));
}

/// What was accepted with an expiry that cannot be read back is never handed
/// out: asking for it fails on the expiry.
pub proof fn unreadable_expiry_is_an_error(
    store: ArtifactStore,
    bytes: Seq<u8>,
    checksum: Option<Seq<char>>,
    suffix: Seq<char>,
    now: UtcInstant,
    metadata: ArtifactMetadata,
    blob: BlobFile,
    later: UtcInstant,
)
    requires
        is_id_suffix(suffix),
        store.accepted(bytes, checksum, suffix, now) == Ok::<_, ArtifactErrorView>(metadata@),
        never_readable(metadata@),
    ensures
        store.found(metadata.artifact_id@, MetadataFile::Parsed(metadata), blob, later) == Err::<
            (ArtifactMetadata, Seq<u8>),
            _,
        >(
            ArtifactErrorView::ParseExpiry {
                expires_at: metadata.expires_at@,
                source: time::parsed_rfc3339(metadata.expires_at@)->Err_0,
            },
        ),
{
    prefixed_suffix_is_id("art_"@, suffix);
    assert(metadata@.expired(later) is Err);
}

/// What was accepted and lies complete on disk is never swept away as incomplete.
pub proof fn accepted_is_complete(
    store: ArtifactStore,
    bytes: Seq<u8>,
    checksum: Option<Seq<char>>,
    suffix: Seq<char>,
    now: UtcInstant,
    metadata: ArtifactMetadata,
    blob: Vec<u8>,
    path: Seq<char>,
)
    requires
        store.accepted(bytes, checksum, suffix, now) == Ok::<_, ArtifactErrorView>(metadata@),
        blob@ == bytes,
    ensures
        store.incomplete(
            metadata.artifact_id@,
            path,
            MetadataFile::Parsed(metadata),
            BlobFile::Bytes(blob),
        ) == Ok::<bool, ArtifactErrorView>(false),
{
}

/// An artifact is handed out exactly as long as the sweep leaves it in place.
pub proof fn handed_out_until_swept(
    store: ArtifactStore,
    metadata: ArtifactMetadata,
    blob: Vec<u8>,
    now: UtcInstant,
)
    requires
        is_artifact_id(metadata.artifact_id@),
    ensures
        (store.found(
            metadata.artifact_id@,
            MetadataFile::Parsed(metadata),
            BlobFile::Bytes(blob),
            now,
        ) is Ok) == (store.expired_entry(
            metadata.artifact_id@,
            MetadataFile::Parsed(metadata),
            now,
        ) == Ok::<bool, ArtifactErrorView>(false)),
{
}

} // verus!
