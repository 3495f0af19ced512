//! What the runner's artifact endpoints decide.
use vstd::prelude::*;

use crate::artifacts::error::{ArtifactError, ArtifactErrorView};
use crate::artifacts::store;
use crate::artifacts::store::ArtifactStore;
use crate::names;
use crate::protocol::HeaderText;
use crate::rate_limit;
use crate::rate_limit::{RateLimiter, RateWindow};

verus! {

/// A minute, in nanoseconds.
pub const UPLOAD_WINDOW: u128 = 60_000_000_000;

/// Whether an upload may be read on, after it was counted, and the checksum
/// that it brings: its client's rate limit counts first.
pub open spec fn upload_admission(
    windows: Seq<(Seq<char>, RateWindow)>,
    token_name: Seq<char>,
    limit: u32,
    header: HeaderText,
    checksum_required: bool,
    now: u128,
) -> (Seq<(Seq<char>, RateWindow)>, Result<Option<Seq<char>>, ArtifactErrorView>) {
    let counted = rate_limit::checked(
        windows,
        rate_limit::window_key("artifacts_write"@, token_name),
        limit,
        UPLOAD_WINDOW,
        now,
    );
    (
        counted.0,
        if counted.1 {
            store::header_checksum(header, checksum_required)
        } else {
            Err(ArtifactErrorView::RateLimitExceeded { token_name, limit, window_seconds: 60 })
        },
    )
}

/// Counts an upload at `now`, and says which checksum it brings.
pub fn admit_upload(
    limiter: &mut RateLimiter,
    token_name: &str,
    limit: u32,
    header: HeaderText,
    artifacts: &ArtifactStore,
    now: u128,
) -> (r: Result<Option<String>, ArtifactError>)
    ensures
        names::names_sorted(old(limiter)@),
        names::names_sorted(final(limiter)@),
        ({
            let expected = upload_admission(
                old(limiter)@,
                token_name@,
                limit,
                header,
                artifacts.require_checksum_on_upload,
                now,
            );
            &&& final(limiter)@ == expected.0
            &&& match r {
                Ok(checksum) => expected.1 == Ok::<_, ArtifactErrorView>(
                    store::optional_text(checksum),
                ),
                Err(e) => expected.1 == Err::<Option<Seq<char>>, _>(e@),
            }
        }),
{
    if let Err(exceeded) = limiter.check("artifacts_write", token_name, limit, UPLOAD_WINDOW, now) {
        assert(UPLOAD_WINDOW / rate_limit::NANOS_PER_SECOND == 60);
        return Err(
            ArtifactError::RateLimitExceeded {
                token_name: token_name.to_owned(),
                limit: exceeded.limit,
                window_seconds: exceeded.window_seconds,
            },
        );
    }
    store::checksum_from_headers(header, artifacts.require_checksum_on_upload())
}

} // verus!
