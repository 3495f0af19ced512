//! Which artifacts are accepted, handed out and swept away.
use vstd::prelude::*;

use crate::artifacts::error::ArtifactErrorView;
use crate::artifacts::metadata::{ArtifactMetadata, ArtifactMetadataView};
use crate::artifacts::store;
use crate::artifacts::store::{ArtifactStore, BlobFile, MetadataFile};
use crate::artifacts::sweep;
use crate::artifacts::sweep::ArtifactEntry;
use crate::auth::laws;
use crate::digest;
use crate::jobs::input_laws;
use crate::paths;
use crate::protocol::HeaderText;
use crate::text;
use crate::time;
use crate::time::UtcInstant;

verus! {

/// 64 hexadecimal digits of either case.
pub open spec fn plain_checksum(value: Seq<char>) -> bool {
    &&& value.len() == 64
    &&& forall|i: int|
        0 <= i < value.len() ==> {
            ||| '0' <= #[trigger] value[i] <= '9'
            ||| 'a' <= value[i] <= 'f'
            ||| 'A' <= value[i] <= 'F'
        }
}

/// Which checksum a request brings: a header with 64 hexadecimal digits brings
/// one, a header with anything else is refused, and without a header there is
/// none, which is refused where one is required.
pub proof fn which_checksums_are_taken(header: HeaderText, needed: bool)
    ensures
        ({
            let taken = store::header_checksum(header, needed);
            let invalid = |message: Seq<char>|
                Err::<Option<Seq<char>>, _>(
                    ArtifactErrorView::InvalidHeader { name: "x-sha256"@, message },
                );
            match header {
                HeaderText::Missing => taken == if needed {
                    Err::<Option<Seq<char>>, _>(ArtifactErrorView::MissingChecksum)
                } else {
                    Ok(None)
                },
                HeaderText::NotText(message) => taken == invalid(message@),
                HeaderText::Text(value) => taken == if plain_checksum(value@) {
                    Ok(Some(value@))
                } else if vstd::utf8::encode_utf8(value@).len() != 64 {
                    invalid("must be exactly 64 hexadecimal characters"@)
                } else {
                    invalid("must contain only hexadecimal characters"@)
                },
            }
        }),
{
    if let HeaderText::Text(t) = header {
        let value = t@;
        if store::all_hex_digits(value) || plain_checksum(value) {
            assert forall|i: int| 0 <= i < value.len() implies {
                ||| '0' <= #[trigger] value[i] <= '9'
                ||| 'a' <= value[i] <= 'f'
                ||| 'A' <= value[i] <= 'F'
            } by {
                if store::all_hex_digits(value) {
                    assert(text::is_hex_digit(value[i]));
                }
            }
            assert(vstd::utf8::is_ascii_chars(value));
            vstd::utf8::is_ascii_chars_encode_utf8(value);
            assert(vstd::utf8::encode_utf8(value).len() == value.len());
        }
        if plain_checksum(value) {
            assert(store::all_hex_digits(value));
        }
    }
}

/// What becomes of bytes that come in. They are kept exactly if a checksum is
/// there that has to be, they are within the limit, a checksum that is there is
/// theirs, and their expiry can be expressed; what fails first is the reason why
/// not. What is kept of them is their digest, their size, and an expiry that lies
/// the time to live away.
pub proof fn which_uploads_are_accepted(
    artifacts: ArtifactStore,
    bytes: Seq<u8>,
    checksum: Option<Seq<char>>,
    suffix: Seq<char>,
    now: UtcInstant,
)
    ensures
        ({
            let accepted = artifacts.accepted(bytes, checksum, suffix, now);
            let refused = |e: ArtifactErrorView| accepted == Err::<ArtifactMetadataView, _>(e);
            let sha256 = digest::hex(digest::sha256(bytes));
            if checksum is None && artifacts.require_checksum_on_upload {
                refused(ArtifactErrorView::MissingChecksum)
            } else if bytes.len() > artifacts.max_size_bytes {
                refused(
                    ArtifactErrorView::TooLarge {
                        size: bytes.len() as usize,
                        max: artifacts.max_size_bytes,
                    },
                )
            } else if checksum is Some && !laws::is_digest(checksum->0, bytes) {
                refused(
                    ArtifactErrorView::ChecksumMismatch { expected: checksum->0, actual: sha256 },
                )
            } else if now.seconds + artifacts.ttl_seconds > 8_210_266_876_799 {
                refused(ArtifactErrorView::TimeOverflow)
            } else {
                &&& accepted matches Ok(metadata)
                &&& metadata.artifact_id == seq!['a', 'r', 't', '_'] + suffix
                &&& metadata.sha256 == sha256
                &&& metadata.size == bytes.len() as u64
                &&& metadata.expires_at == time::rfc3339(now.seconds + artifacts.ttl_seconds)
            }
        }),
{
    reveal_strlit("art_");
    assert("art_"@ =~= seq!['a', 'r', 't', '_']);
    if checksum is Some {
        laws::which_checksums_match(checksum->0, bytes);
    }
}

/// The artifact's expiry lies after `now`.
pub open spec fn lasts(metadata: ArtifactMetadata, now: UtcInstant) -> bool {
    time::parsed_rfc3339(metadata.expires_at@) matches Ok(at) && (now.seconds < at.0 || (now.seconds
        == at.0 && now.nanos < at.1))
}

/// What a request for an artifact gets: the bytes, if the identifier is
/// well-formed, the metadata is there, its expiry lies ahead, and the bytes are
/// there.
pub proof fn which_artifacts_are_handed_out(
    artifacts: ArtifactStore,
    artifact_id: Seq<char>,
    file: MetadataFile,
    blob: BlobFile,
    now: UtcInstant,
)
    ensures
        ({
            let found = artifacts.found(artifact_id, file, blob, now);
            let refused = |e: ArtifactErrorView| found == Err::<(ArtifactMetadata, Seq<u8>), _>(e);
            if !input_laws::plain_id(artifact_id, seq!['a', 'r', 't', '_']) {
                refused(ArtifactErrorView::InvalidArtifactId(artifact_id))
            } else {
                match file {
                    MetadataFile::Missing | MetadataFile::Unreadable(_) => refused(
                        ArtifactErrorView::NotFound(artifact_id),
                    ),
                    MetadataFile::Unparsable(source) => refused(
                        ArtifactErrorView::ParseMetadata {
                            path: paths::joined(
                                paths::joined(artifacts.root_dir@, artifact_id),
                                "metadata.json"@,
                            ),
                            source: source@,
                        },
                    ),
                    MetadataFile::Parsed(metadata) => match time::parsed_rfc3339(
                        metadata.expires_at@,
                    ) {
                        Err(source) => refused(
                            ArtifactErrorView::ParseExpiry {
                                expires_at: metadata.expires_at@,
                                source,
                            },
                        ),
                        Ok(_) => match blob {
                            BlobFile::Bytes(bytes) => if lasts(metadata, now) {
                                found == Ok::<_, ArtifactErrorView>((metadata, bytes@))
                            } else {
                                refused(ArtifactErrorView::NotFound(artifact_id))
                            },
                            _ => refused(ArtifactErrorView::NotFound(artifact_id)),
                        },
                    },
                }
            }
        }),
{
    reveal_strlit("art_");
    assert("art_"@ =~= seq!['a', 'r', 't', '_']);
    input_laws::which_ids_pass(artifact_id, "art_"@);
}

/// An artifact directory is complete exactly if its metadata names it and gives
/// the size and the digest of its bytes.
pub proof fn which_artifacts_are_incomplete(
    artifacts: ArtifactStore,
    artifact_id: Seq<char>,
    path: Seq<char>,
    file: MetadataFile,
    blob: BlobFile,
)
    ensures
        ({
            let incomplete = artifacts.incomplete(artifact_id, path, file, blob);
            &&& (incomplete == Ok::<bool, ArtifactErrorView>(false)) == ((
            file matches MetadataFile::Parsed(metadata) && (blob matches BlobFile::Bytes(bytes)
                && metadata.artifact_id@ == artifact_id && metadata.size == bytes@.len()
                && metadata.sha256@ == digest::hex(digest::sha256(bytes@)))))
            &&& incomplete matches Err(problem) ==> {
                ||| (file matches MetadataFile::Unreadable(source) && problem == (
                ArtifactErrorView::ReadFile {
                    path: paths::joined(path, "metadata.json"@),
                    source: source@,
                }))
                ||| (file matches MetadataFile::Parsed(metadata) && (
                blob matches BlobFile::Unreadable(source) && metadata.artifact_id@ == artifact_id
                    && problem == (ArtifactErrorView::ReadFile {
                    path: paths::joined(path, "blob"@),
                    source: source@,
                })))
            }
            &&& file is Unreadable ==> incomplete is Err
            &&& (file matches MetadataFile::Parsed(metadata) && metadata.artifact_id@ == artifact_id
                && blob is Unreadable) ==> incomplete is Err
        }),
{
}

/// An artifact directory has expired exactly if its metadata is there and its
/// expiry does not lie ahead.
pub proof fn which_artifacts_have_expired(
    artifacts: ArtifactStore,
    artifact_id: Seq<char>,
    file: MetadataFile,
    now: UtcInstant,
)
    ensures
        ({
            let expired = artifacts.expired_entry(artifact_id, file, now);
            let failed = |e: ArtifactErrorView| expired == Err::<bool, _>(e);
            if !input_laws::plain_id(artifact_id, seq!['a', 'r', 't', '_']) {
                failed(ArtifactErrorView::InvalidArtifactId(artifact_id))
            } else {
                match file {
                    MetadataFile::Missing | MetadataFile::Unreadable(_) => expired == Ok::<
                        bool,
                        ArtifactErrorView,
                    >(false),
                    MetadataFile::Unparsable(source) => failed(
                        ArtifactErrorView::ParseMetadata {
                            path: paths::joined(
                                paths::joined(artifacts.root_dir@, artifact_id),
                                "metadata.json"@,
                            ),
                            source: source@,
                        },
                    ),
                    MetadataFile::Parsed(metadata) => match time::parsed_rfc3339(
                        metadata.expires_at@,
                    ) {
                        Ok(_) => expired == Ok::<bool, ArtifactErrorView>(!lasts(metadata, now)),
                        Err(source) => failed(
                            ArtifactErrorView::ParseExpiry {
                                expires_at: metadata.expires_at@,
                                source,
                            },
                        ),
                    },
                }
            }
        }),
{
    reveal_strlit("art_");
    assert("art_"@ =~= seq!['a', 'r', 't', '_']);
    input_laws::which_ids_pass(artifact_id, "art_"@);
}

/// A sweep goes through the entries in order: each directory that is to go goes,
/// nothing else does, and the first entry that cannot be judged ends it.
pub proof fn a_sweep_goes_in_order(
    entries: Seq<ArtifactEntry>,
    verdict: spec_fn(ArtifactEntry) -> Result<bool, ArtifactErrorView>,
    entry: ArtifactEntry,
)
    ensures
        ({
            let before = sweep::swept(entries, verdict);
            let after = sweep::swept(entries.push(entry), verdict);
            &&& entries.len() == 0 ==> before.removals.len() == 0 && before.failure is None
            &&& before.failure is Some ==> after == before
            &&& before.failure is None ==> match verdict(entry) {
                Err(problem) => after.removals == before.removals && after.failure == Some(problem),
                Ok(goes) => {
                    &&& after.failure is None
                    &&& after.removals == if goes && entry is Directory {
                        before.removals + seq![entry->path@]
                    } else {
                        before.removals
                    }
                },
            }
        }),
{
    let longer = entries.push(entry);
    assert(longer.drop_last() =~= entries);
    assert(longer.last() == entry);
    let before = sweep::swept(entries, verdict);
    if let ArtifactEntry::Directory { artifact_id, path, metadata, blob } = entry {
        assert(before.removals.push(path@) =~= before.removals + seq![path@]);
    }
}

/// A sweep judges a directory by its own name and files, never removes what is no
/// directory, and fails on an entry that cannot be read.
pub proof fn how_entries_are_judged(artifacts: ArtifactStore, entry: ArtifactEntry, now: UtcInstant)
    ensures
        match entry {
            ArtifactEntry::Unreadable(source) => {
                let problem = Err::<bool, _>(
                    ArtifactErrorView::ReadDir { path: artifacts.root_dir@, source: source@ },
                );
                artifacts.incomplete_verdict()(entry) == problem && artifacts.expired_verdict(now)(
                    entry,
                ) == problem
            },
            ArtifactEntry::NotDirectory => artifacts.incomplete_verdict()(entry) == Ok::<
                bool,
                ArtifactErrorView,
            >(false) && artifacts.expired_verdict(now)(entry) == Ok::<bool, ArtifactErrorView>(
                false,
            ),
            ArtifactEntry::Directory { artifact_id, path, metadata, blob } => {
                &&& artifacts.incomplete_verdict()(entry) == artifacts.incomplete(
                    artifact_id@,
                    path@,
                    metadata,
                    blob,
                )
                &&& artifacts.expired_verdict(now)(entry) == artifacts.expired_entry(
                    artifact_id@,
                    metadata,
                    now,
                )
            },
        },
{
}

} // verus!
