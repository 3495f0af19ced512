//! What the runner's job endpoints decide.
use vstd::prelude::*;

use crate::config;
use crate::config::JobsConfig;
use crate::job::{JobCreatedResponse, JobStatus};
use crate::jobs::error::{JobError, JobErrorView};
use crate::jobs::models;
use crate::json;
use crate::json::{JsonValue, JsonView};
use crate::manifest::store::ManifestStore;
use crate::names;
use crate::names::NameMap;
use crate::protocol::HeaderText;
use crate::rate_limit;
use crate::rate_limit::{RateLimiter, RateWindow};
use crate::schema::JobDefinitionResponse;

verus! {

/// A minute, in nanoseconds.
pub const RUN_WINDOW: u128 = 60_000_000_000;

/// Whether a request to run a job may be read on, after it was counted: its
/// client's rate limit counts first, then the configured limit of the body.
pub open spec fn run_admission(
    windows: Seq<(Seq<char>, RateWindow)>,
    token_name: Seq<char>,
    config: JobsConfig,
    now: u128,
) -> (Seq<(Seq<char>, RateWindow)>, Result<usize, JobErrorView>) {
    let counted = rate_limit::checked(
        windows,
        rate_limit::window_key("jobs_run"@, token_name),
        config.max_run_requests_per_minute,
        RUN_WINDOW,
        now,
    );
    (
        counted.0,
        if !counted.1 {
            Err(
                JobErrorView::RateLimitExceeded {
                    token_name,
                    limit: config.max_run_requests_per_minute,
                    window_seconds: 60,
                },
            )
        } else {
            match config::kibibytes(config.max_request_body_kb) {
                None => Err(
                    JobErrorView::InvalidRequestBodyLimit {
                        max_size_kb: config.max_request_body_kb,
                    },
                ),
                Some(bytes) => Ok(bytes),
            }
        },
    )
}

/// Counts a request to run a job at `now`, and says how many bytes its body may
/// have.
pub fn admit_run_request(
    limiter: &mut RateLimiter,
    token_name: &str,
    config: &JobsConfig,
    now: u128,
) -> (r: Result<usize, JobError>)
    ensures
        names::names_sorted(old(limiter)@),
        names::names_sorted(final(limiter)@),
        ({
            let expected = run_admission(old(limiter)@, token_name@, *config, now);
            &&& final(limiter)@ == expected.0
            &&& match r {
                Ok(bytes) => expected.1 == Ok::<_, JobErrorView>(bytes),
                Err(e) => expected.1 == Err::<usize, _>(e@),
            }
        }),
{
    let limit: u32 = config.max_run_requests_per_minute;
    if let Err(exceeded) = limiter.check("jobs_run", token_name, limit, RUN_WINDOW, now) {
        assert(RUN_WINDOW / rate_limit::NANOS_PER_SECOND == 60);
        return Err(
            JobError::RateLimitExceeded {
                token_name: token_name.to_owned(),
                limit: exceeded.limit,
                window_seconds: exceeded.window_seconds,
            },
        );
    }
    match config.max_request_body_bytes() {
        Some(bytes) => Ok(bytes),
        None => Err(
            JobError::InvalidRequestBodyLimit { max_size_kb: config.max_request_body_kb },
        ),
    }
}

/// The idempotency key that a request's header carries.
pub open spec fn header_key(header: HeaderText) -> Result<Seq<char>, JobErrorView> {
    match header {
        HeaderText::Missing => Err(JobErrorView::MissingIdempotencyKey),
        HeaderText::NotText(_) => Err(JobErrorView::InvalidIdempotencyKey("<invalid header>"@)),
        HeaderText::Text(t) => Ok(t@),
    }
}

pub fn idempotency_key_from_header(header: HeaderText) -> (r: Result<String, JobError>)
    ensures
        match r {
            Ok(key) => header_key(header) == Ok::<_, JobErrorView>(key@),
            Err(e) => header_key(header) == Err::<Seq<char>, _>(e@),
        },
{
    match header {
        HeaderText::Missing => Err(JobError::MissingIdempotencyKey),
        HeaderText::NotText(_) => Err(
            JobError::InvalidIdempotencyKey("<invalid header>".to_owned()),
        ),
        HeaderText::Text(t) => Ok(t),
    }
}

/// The inputs that a parsed body gives: the members of an object.
pub open spec fn body_inputs(
    document: Result<Option<Seq<(Seq<char>, JsonView)>>, Seq<char>>,
) -> Result<Seq<(Seq<char>, JsonView)>, JobErrorView> {
    match document {
        Err(source) => Err(JobErrorView::ParseRequestBody { source }),
        Ok(None) => Err(JobErrorView::InvalidBody("expected a JSON object"@)),
        Ok(Some(members)) => Ok(members),
    }
}

/// The inputs that a parsed body gives.
pub fn inputs_from_document(document: Result<Option<Vec<(String, JsonValue)>>, String>) -> (r:
    Result<NameMap<JsonValue>, JobError>)
    requires
        document matches Ok(Some(members)) ==> names::names_sorted(names::entry_views(members@)),
    ensures
        ({
            let expected = body_inputs(json::document_view(document));
            match r {
                Ok(inputs) => expected == Ok::<_, JobErrorView>(
                    names::with_values(inputs@, json::json_model()),
                ),
                Err(e) => expected == Err::<Seq<(Seq<char>, JsonView)>, _>(e@),
            }
        }),
{
    match document {
        Err(source) => Err(JobError::ParseRequestBody { source }),
        Ok(None) => Err(JobError::InvalidBody("expected a JSON object")),
        Ok(Some(members)) => Ok(NameMap::from_sorted(members)),
    }
}

/// The inputs that the body of a request to run a job carries.
pub fn parse_run_inputs(body: &[u8]) -> (r: Result<NameMap<JsonValue>, JobError>)
    ensures
        ({
            let expected = body_inputs(json::parsed_object(body@));
            match r {
                Ok(inputs) => expected == Ok::<_, JobErrorView>(
                    names::with_values(inputs@, json::json_model()),
                ),
                Err(e) => expected == Err::<Seq<(Seq<char>, JsonView)>, _>(e@),
            }
        }),
{
    inputs_from_document(json::parse_object(body))
}

/// The HTTP status that tells of a run: created while it runs, found otherwise.
pub fn created_status_code(created: &JobCreatedResponse) -> (r: u16)
    ensures
        r == if created.status is Running {
            201u16
        } else {
            200
        },
{
    if created.status == JobStatus::Running {
        201
    } else {
        200
    }
}

/// Every job that the runner offers, in name order.
pub fn list_jobs(manifests: &ManifestStore) -> (r: Vec<JobDefinitionResponse>)
    ensures
        r@.len() == manifests@.len(),
        forall|i: int|
            0 <= i < r@.len() ==> models::advertises(manifests@[i].1, #[trigger] r@[i]),
{
    let all = manifests.all();
    let mut out: Vec<JobDefinitionResponse> = Vec::new();
    let mut i: usize = 0;
    while i < all.len()
        invariant
            i <= all@.len(),
            all@.len() == manifests@.len(),
            out@.len() == i,
            forall|j: int| 0 <= j < all@.len() ==> (#[trigger] all@[j])@ == manifests@[j].1,
            forall|j: int|
                0 <= j < i ==> models::advertises(manifests@[j].1, #[trigger] out@[j]),
        decreases all@.len() - i,
    {
        let manifest = all[i].clone();
        assert(all@[i as int]@ == manifests@[i as int].1);
        out.push(JobDefinitionResponse::from(manifest));
        i += 1;
    }
    out
}

} // verus!
