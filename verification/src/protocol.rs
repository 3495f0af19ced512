//! The runner's HTTP routes and header names.
use vstd::prelude::*;

verus! {

pub const HEADER_IDEMPOTENCY_KEY: &'static str = "x-idempotency-key";

pub const HEADER_SHA256: &'static str = "x-sha256";

pub const HEADER_SIGNATURE: &'static str = "x-signature";

pub const HEADER_SIGNATURE_KEY_ID: &'static str = "x-signature-key-id";

pub const HEADER_SIGNATURE_TIMESTAMP: &'static str = "x-signature-timestamp";

pub const HEADER_SIGNATURE_NONCE: &'static str = "x-signature-nonce";

pub const HEADER_SIGNATURE_CONTENT_SHA256: &'static str = "x-signature-content-sha256";

pub const SIGNATURE_ALGORITHM_ED25519: &'static str = "ed25519";

/// A request header: absent, not text (with the message why), or its text.
#[derive(Debug)]
pub enum HeaderText {
    Missing,
    NotText(String),
    Text(String),
}

/// What the signature of a request is made over.
pub open spec fn canonical_request(
    method: Seq<char>,
    path_and_query: Seq<char>,
    content_sha256: Seq<char>,
    timestamp: Seq<char>,
    nonce: Seq<char>,
) -> Seq<char> {
    method + "\n"@ + path_and_query + "\n"@ + content_sha256 + "\n"@ + timestamp + "\n"@ + nonce
}

pub fn canonical_signed_request(
    method: &str,
    path_and_query: &str,
    content_sha256: &str,
    timestamp: &str,
    nonce: &str,
) -> (r: String)
    ensures
        r@ == canonical_request(method@, path_and_query@, content_sha256@, timestamp@, nonce@),
{
    let mut out = method.to_owned();
    out.append("\n");
    out.append(path_and_query);
    out.append("\n");
    out.append(content_sha256);
    out.append("\n");
    out.append(timestamp);
    out.append("\n");
    out.append(nonce);
    out
}

/// A route of the runner, with placeholders for what varies.
#[derive(Debug, Clone, Copy, PartialEq, Eq, Structural)]
pub enum RunnerRouteTemplate {
    Capabilities,
    Jobs,
    Artifacts,
    Artifact,
    JobRuns,
    Run,
    RunLogs,
}

impl RunnerRouteTemplate {
    /// The path pattern of the route.
    pub open spec fn pattern(self) -> Seq<char> {
        match self {
            RunnerRouteTemplate::Capabilities => "/capabilities"@,
            RunnerRouteTemplate::Jobs => "/jobs"@,
            RunnerRouteTemplate::Artifacts => "/artifacts"@,
            RunnerRouteTemplate::Artifact => "/artifacts/{artifact_id}"@,
            RunnerRouteTemplate::JobRuns => "/jobs/{name}/runs"@,
            RunnerRouteTemplate::Run => "/runs/{job_id}"@,
            RunnerRouteTemplate::RunLogs => "/runs/{job_id}/logs"@,
        }
    }

    pub fn path(self) -> (r: &'static str)
        ensures
            r@ == self.pattern(),
    {
        match self {
            RunnerRouteTemplate::Capabilities => "/capabilities",
            RunnerRouteTemplate::Jobs => "/jobs",
            RunnerRouteTemplate::Artifacts => "/artifacts",
            RunnerRouteTemplate::Artifact => "/artifacts/{artifact_id}",
            RunnerRouteTemplate::JobRuns => "/jobs/{name}/runs",
            RunnerRouteTemplate::Run => "/runs/{job_id}",
            RunnerRouteTemplate::RunLogs => "/runs/{job_id}/logs",
        }
    }
}

/// A route of the runner with its placeholders filled in.
#[derive(Debug, Clone, Copy, PartialEq, Eq)]
pub enum RunnerRoute<'a> {
    Capabilities,
    Jobs,
    Artifacts,
    Artifact { artifact_id: &'a str },
    JobRuns { job_name: &'a str },
    Run { job_id: &'a str },
    RunLogs { job_id: &'a str },
}

impl<'a> RunnerRoute<'a> {
    /// The concrete path of the route.
    pub open spec fn location(self) -> Seq<char> {
        match self {
            RunnerRoute::Capabilities => "/capabilities"@,
            RunnerRoute::Jobs => "/jobs"@,
            RunnerRoute::Artifacts => "/artifacts"@,
            RunnerRoute::Artifact { artifact_id } => "/artifacts/"@ + artifact_id@,
            RunnerRoute::JobRuns { job_name } => "/jobs/"@ + job_name@ + "/runs"@,
            RunnerRoute::Run { job_id } => "/runs/"@ + job_id@,
            RunnerRoute::RunLogs { job_id } => "/runs/"@ + job_id@ + "/logs"@,
        }
    }

    /// The template that the route fills in.
    pub open spec fn template_of(self) -> RunnerRouteTemplate {
        match self {
            RunnerRoute::Capabilities => RunnerRouteTemplate::Capabilities,
            RunnerRoute::Jobs => RunnerRouteTemplate::Jobs,
            RunnerRoute::Artifacts => RunnerRouteTemplate::Artifacts,
            RunnerRoute::Artifact { .. } => RunnerRouteTemplate::Artifact,
            RunnerRoute::JobRuns { .. } => RunnerRouteTemplate::JobRuns,
            RunnerRoute::Run { .. } => RunnerRouteTemplate::Run,
            RunnerRoute::RunLogs { .. } => RunnerRouteTemplate::RunLogs,
        }
    }

    pub fn path(self) -> (r: String)
        ensures
            r@ == self.location(),
    {
        match self {
            RunnerRoute::Capabilities => RunnerRouteTemplate::Capabilities.path().to_owned(),
            RunnerRoute::Jobs => RunnerRouteTemplate::Jobs.path().to_owned(),
            RunnerRoute::Artifacts => RunnerRouteTemplate::Artifacts.path().to_owned(),
            RunnerRoute::Artifact { artifact_id } => {
                let mut path = "/artifacts/".to_owned();
                path.append(artifact_id);
                path
            },
            RunnerRoute::JobRuns { job_name } => {
                let mut path = "/jobs/".to_owned();
                path.append(job_name);
                path.append("/runs");
                path
            },
            RunnerRoute::Run { job_id } => {
                let mut path = "/runs/".to_owned();
                path.append(job_id);
                path
            },
            RunnerRoute::RunLogs { job_id } => {
                let mut path = "/runs/".to_owned();
                path.append(job_id);
                path.append("/logs");
                path
            },
        }
    }

    pub fn template(self) -> (r: RunnerRouteTemplate)
        ensures
            r == self.template_of(),
    {
        match self {
            RunnerRoute::Capabilities => RunnerRouteTemplate::Capabilities,
            RunnerRoute::Jobs => RunnerRouteTemplate::Jobs,
            RunnerRoute::Artifacts => RunnerRouteTemplate::Artifacts,
            RunnerRoute::Artifact { .. } => RunnerRouteTemplate::Artifact,
            RunnerRoute::JobRuns { .. } => RunnerRouteTemplate::JobRuns,
            RunnerRoute::Run { .. } => RunnerRouteTemplate::Run,
            RunnerRoute::RunLogs { .. } => RunnerRouteTemplate::RunLogs,
        }
    }
}

/// The placeholder of a template, and what a route puts in its place.
pub open spec fn placeholder(route: RunnerRoute<'_>) -> Option<(Seq<char>, Seq<char>)> {
    match route {
        RunnerRoute::Artifact { artifact_id } => Some(("{artifact_id}"@, artifact_id@)),
        RunnerRoute::JobRuns { job_name } => Some(("{name}"@, job_name@)),
        RunnerRoute::Run { job_id } => Some(("{job_id}"@, job_id@)),
        RunnerRoute::RunLogs { job_id } => Some(("{job_id}"@, job_id@)),
        _ => None,
    }
}

/// `whole` is `pattern` with the one occurrence of `hole` replaced by `filling`.
pub open spec fn fills(
    pattern: Seq<char>,
    hole: Seq<char>,
    filling: Seq<char>,
    whole: Seq<char>,
) -> bool {
    exists|before: Seq<char>, after: Seq<char>|
        pattern == #[trigger] (before + hole + after) && whole == before + filling + after
}

/// A route's path is its template's pattern with the placeholder filled in;
/// where the template has no placeholder, the two are the same.
pub proof fn route_path_fills_template(route: RunnerRoute<'_>)
    ensures
        match placeholder(route) {
            Some((hole, filling)) => fills(
                route.template_of().pattern(),
                hole,
                filling,
                route.location(),
            ),
            None => route.location() == route.template_of().pattern(),
        },
{
    match route {
        RunnerRoute::Artifact { artifact_id } => {
            reveal_strlit("/artifacts/{artifact_id}");
            reveal_strlit("/artifacts/");
            reveal_strlit("{artifact_id}");
            let (before, hole, after) = ("/artifacts/"@, "{artifact_id}"@, Seq::<char>::empty());
            assert("/artifacts/{artifact_id}"@ =~= before + hole + after);
            assert(route.location() =~= before + artifact_id@ + after);
        },
        RunnerRoute::JobRuns { job_name } => {
            reveal_strlit("/jobs/{name}/runs");
            reveal_strlit("/jobs/");
            reveal_strlit("{name}");
            reveal_strlit("/runs");
            let (before, hole, after) = ("/jobs/"@, "{name}"@, "/runs"@);
            assert("/jobs/{name}/runs"@ =~= before + hole + after);
            assert(route.location() =~= before + job_name@ + after);
        },
        RunnerRoute::Run { job_id } => {
            reveal_strlit("/runs/{job_id}");
            reveal_strlit("/runs/");
            reveal_strlit("{job_id}");
            let (before, hole, after) = ("/runs/"@, "{job_id}"@, Seq::<char>::empty());
            assert("/runs/{job_id}"@ =~= before + hole + after);
            assert(route.location() =~= before + job_id@ + after);
        },
        RunnerRoute::RunLogs { job_id } => {
            reveal_strlit("/runs/{job_id}/logs");
            reveal_strlit("/runs/");
            reveal_strlit("{job_id}");
            reveal_strlit("/logs");
            let (before, hole, after) = ("/runs/"@, "{job_id}"@, "/logs"@);
            assert("/runs/{job_id}/logs"@ =~= before + hole + after);
            assert(route.location() =~= before + job_id@ + after);
        },
        _ => {},
    }
}

} // verus!
