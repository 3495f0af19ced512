//! How often clients may ask, and how much they may send.
use vstd::prelude::*;

use crate::artifacts::api as artifact_api;
use crate::artifacts::error::ArtifactErrorView;
use crate::artifacts::store;
use crate::config;
use crate::config::JobsConfig;
use crate::jobs::api as job_api;
use crate::jobs::error::JobErrorView;
use crate::jobs::store as job_store;
use crate::json::JsonView;
use crate::names;
use crate::protocol::HeaderText;
use crate::rate_limit;
use crate::rate_limit::RateWindow;

verus! {

/// The window is younger than `span`: it opened less than that before `now`, or
/// after it.
pub open spec fn younger(w: RateWindow, now: u128, span: int) -> bool {
    span > 0 && now - w.started_at < span
}

/// The client has made as many requests as it may in a window that is still open.
pub open spec fn used_up(
    windows: Seq<(Seq<char>, RateWindow)>,
    key: Seq<char>,
    limit: u32,
    window: u128,
    now: u128,
) -> bool {
    exists|w: int|
        0 <= w < windows.len() && (#[trigger] windows[w]).0 == key && younger(
            windows[w].1,
            now,
            window as int,
        ) && windows[w].1.count >= limit
}

/// A request is let through exactly if requests may be made at all and the
/// client's open window, if it has one, is not used up. It counts in that window
/// if it is let through; without an open window a new one opens with it.
pub proof fn which_requests_are_let_through(
    windows: Seq<(Seq<char>, RateWindow)>,
    key: Seq<char>,
    limit: u32,
    window: u128,
    now: u128,
)
    requires
        names::names_sorted(windows),
    ensures
        ({
            let (after, passes) = rate_limit::checked(windows, key, limit, window, now);
            &&& passes == (limit > 0 && !used_up(windows, key, limit, window, now))
            &&& names::names_sorted(after)
            &&& forall|w: int|
                0 <= w < windows.len() && (#[trigger] windows[w]).0 == key && younger(
                    windows[w].1,
                    now,
                    window as int,
                ) ==> names::lookup(after, key) == Some(
                    RateWindow {
                        started_at: windows[w].1.started_at,
                        count: if passes {
                            (windows[w].1.count + 1) as u32
                        } else {
                            windows[w].1.count
                        },
                    },
                )
            &&& (forall|w: int|
                0 <= w < windows.len() && (#[trigger] windows[w]).0 == key ==> !younger(
                    windows[w].1,
                    now,
                    window as int,
                )) ==> names::lookup(after, key) == Some(
                RateWindow {
                    started_at: now,
                    count: if passes {
                        1
                    } else {
                        0
                    },
                },
            )
        }),
{
    let keep = rate_limit::fresh(now, rate_limit::stale_age(window));
    let remaining = names::kept(windows, keep);
    names::kept_lookup(windows, keep, key);
    let current = rate_limit::current_window(remaining, key, window, now);
    let counted = RateWindow {
        started_at: current.started_at,
        count: (current.count + 1) as u32,
    };
    names::inserted_sorted(remaining, key, current);
    names::inserted_sorted(remaining, key, counted);
    names::inserted_lookup(remaining, key, current, key);
    names::inserted_lookup(remaining, key, counted, key);
    assert forall|w: int| 0 <= w < windows.len() && (#[trigger] windows[w]).0
        == key implies names::lookup(windows, key) == Some(windows[w].1) by {
        names::lookup_at(windows, w);
    }
    if names::has_name(windows, key) {
        let p = names::position_of(windows, key);
        assert(windows[p].0 == key);
    }
}

/// What a request leaves of another client's window: it is forgotten once it is
/// twice as old as a window lasts, where that can be expressed, and stays as it
/// was until then.
pub proof fn what_becomes_of_other_windows(
    windows: Seq<(Seq<char>, RateWindow)>,
    key: Seq<char>,
    limit: u32,
    window: u128,
    now: u128,
    other: Seq<char>,
)
    requires
        names::names_sorted(windows),
        other != key,
    ensures
        ({
            let after = rate_limit::checked(windows, key, limit, window, now).0;
            let span = if 2 * window < 18_446_744_073_709_551_616_000_000_000 {
                2 * window
            } else {
                window as int
            };
            names::lookup(after, other) == match names::lookup(windows, other) {
                Some(w) => if younger(w, now, span) {
                    Some(w)
                } else {
                    None
                },
                None => None,
            }
        }),
{
    let keep = rate_limit::fresh(now, rate_limit::stale_age(window));
    let remaining = names::kept(windows, keep);
    names::kept_lookup(windows, keep, other);
    names::kept_lookup(windows, keep, key);
    let current = rate_limit::current_window(remaining, key, window, now);
    let counted = RateWindow {
        started_at: current.started_at,
        count: (current.count + 1) as u32,
    };
    names::inserted_lookup(remaining, key, current, other);
    names::inserted_lookup(remaining, key, counted, other);
}

/// Each client has a window of its own in each scope.
pub proof fn windows_are_apart(
    scope: Seq<char>,
    token_name: Seq<char>,
    other_token: Seq<char>,
)
    requires
        token_name != other_token,
    ensures
        rate_limit::window_key(scope, token_name) != rate_limit::window_key(scope, other_token),
        rate_limit::window_key(scope, token_name).len() == scope.len() + 1 + token_name.len(),
        rate_limit::window_key("jobs_run"@, token_name) != rate_limit::window_key(
            "artifacts_write"@,
            other_token,
        ),
{
    reveal_strlit(":");
    reveal_strlit("jobs_run");
    reveal_strlit("artifacts_write");
    let (a, b) = (
        rate_limit::window_key(scope, token_name),
        rate_limit::window_key(scope, other_token),
    );
    assert(a.skip(scope.len() as int + 1) =~= token_name);
    assert(b.skip(scope.len() as int + 1) =~= other_token);
    let (c, d) = (
        rate_limit::window_key("jobs_run"@, token_name),
        rate_limit::window_key("artifacts_write"@, other_token),
    );
    assert(c[0] == 'j' && d[0] == 'a');
}

/// Kibibytes are 1024 bytes, mebibytes 1048576, and a limit that cannot be
/// counted is none.
pub proof fn what_limits_mean(configured: u64)
    ensures
        config::kibibytes(configured) matches Some(bytes) ==> bytes == configured * 1024,
        configured * 1024 <= u64::MAX && configured * 1024 <= usize::MAX ==> config::kibibytes(
            configured,
        ) is Some,
        configured * 1024 > u64::MAX || configured * 1024 > usize::MAX ==> config::kibibytes(
            configured,
        ) is None,
        store::mebibytes(configured) matches Some(bytes) ==> bytes == configured * 1024 * 1024,
        configured * 1024 * 1024 <= u64::MAX && configured * 1024 * 1024 <= usize::MAX
            ==> store::mebibytes(configured) is Some,
        configured * 1024 * 1024 > u64::MAX || configured * 1024 * 1024 > usize::MAX
            ==> store::mebibytes(configured) is None,
        job_store::log_limit(configured) matches Some(bytes) ==> bytes == configured * 1024 * 1024,
        (job_store::log_limit(configured) is Some) == (configured * 1024 * 1024 <= u64::MAX),
{
}

/// What becomes of a request to run a job before its body is read: a client that
/// has used up its minute is told to wait for one, and otherwise the body may
/// have as many bytes as is configured.
pub proof fn which_run_requests_are_read(
    windows: Seq<(Seq<char>, RateWindow)>,
    token_name: Seq<char>,
    config: JobsConfig,
    now: u128,
)
    requires
        names::names_sorted(windows),
    ensures
        ({
            let (after, outcome) = job_api::run_admission(windows, token_name, config, now);
            let key = "jobs_run:"@ + token_name;
            let limit = config.max_run_requests_per_minute;
            &&& after == rate_limit::checked(windows, key, limit, 60_000_000_000, now).0
            &&& if limit == 0 || used_up(windows, key, limit, 60_000_000_000, now) {
                outcome == Err::<usize, _>(
                    JobErrorView::RateLimitExceeded { token_name, limit, window_seconds: 60 },
                )
            } else if config.max_request_body_kb * 1024 > u64::MAX || config.max_request_body_kb
                * 1024 > usize::MAX {
                outcome == Err::<usize, _>(
                    JobErrorView::InvalidRequestBodyLimit {
                        max_size_kb: config.max_request_body_kb,
                    },
                )
            } else {
                outcome matches Ok(bytes) && bytes == config.max_request_body_kb * 1024
            }
        }),
{
    reveal_strlit(":");
    reveal_strlit("jobs_run");
    reveal_strlit("jobs_run:");
    let key = rate_limit::window_key("jobs_run"@, token_name);
    assert("jobs_run"@ + ":"@ =~= "jobs_run:"@);
    which_requests_are_let_through(
        windows,
        key,
        config.max_run_requests_per_minute,
        60_000_000_000,
        now,
    );
    what_limits_mean(config.max_request_body_kb);
}

/// What becomes of an upload before its bytes are read: a client that has used
/// up its minute is told to wait for one, and otherwise the checksum header
/// counts.
pub proof fn which_uploads_are_read(
    windows: Seq<(Seq<char>, RateWindow)>,
    token_name: Seq<char>,
    limit: u32,
    header: HeaderText,
    needed: bool,
    now: u128,
)
    requires
        names::names_sorted(windows),
    ensures
        ({
            let (after, outcome) = artifact_api::upload_admission(
                windows,
                token_name,
                limit,
                header,
                needed,
                now,
            );
            let key = "artifacts_write:"@ + token_name;
            &&& after == rate_limit::checked(windows, key, limit, 60_000_000_000, now).0
            &&& outcome == if limit == 0 || used_up(windows, key, limit, 60_000_000_000, now) {
                Err::<Option<Seq<char>>, _>(
                    ArtifactErrorView::RateLimitExceeded { token_name, limit, window_seconds: 60 },
                )
            } else {
                store::header_checksum(header, needed)
            }
        }),
{
    reveal_strlit(":");
    reveal_strlit("artifacts_write");
    reveal_strlit("artifacts_write:");
    let key = rate_limit::window_key("artifacts_write"@, token_name);
    assert("artifacts_write"@ + ":"@ =~= "artifacts_write:"@);
    which_requests_are_let_through(windows, key, limit, 60_000_000_000, now);
}

/// The idempotency key is the text of its header, and the inputs are the members
/// of the object that the body holds; without either a request is refused.
pub proof fn what_a_run_request_carries(
    header: HeaderText,
    document: Result<Option<Seq<(Seq<char>, JsonView)>>, Seq<char>>,
)
    ensures
        match header {
            HeaderText::Text(key) => job_api::header_key(header) == Ok::<_, JobErrorView>(key@),
            HeaderText::Missing => job_api::header_key(header) == Err::<Seq<char>, _>(
                JobErrorView::MissingIdempotencyKey,
            ),
            HeaderText::NotText(_) => job_api::header_key(header) == Err::<Seq<char>, _>(
                JobErrorView::InvalidIdempotencyKey("<invalid header>"@),
            ),
        },
        document matches Ok(Some(members)) ==> job_api::body_inputs(document) == Ok::<
            _,
            JobErrorView,
        >(members),
        document matches Ok(None) ==> job_api::body_inputs(document) == Err::<
            Seq<(Seq<char>, JsonView)>,
            _,
        >(JobErrorView::InvalidBody("expected a JSON object"@)),
        document matches Err(source) ==> job_api::body_inputs(document) == Err::<
            Seq<(Seq<char>, JsonView)>,
            _,
        >(JobErrorView::ParseRequestBody { source }),
{
}

} // verus!
