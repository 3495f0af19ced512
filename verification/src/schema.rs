//! Job schemas as the runner advertises them.
use vstd::prelude::*;

use crate::names::NameMap;
use crate::text;

verus! {

/// The type of a job input.
#[derive(Debug, Clone, Copy, PartialEq, Eq, Structural)]
pub enum InputType {
    String,
    Integer,
    Boolean,
    Artifact,
    Json,
}

impl InputType {
    /// The name that stands for the value in protocol texts.
    pub open spec fn label(self) -> Seq<char> {
        match self {
            InputType::String => "string"@,
            InputType::Integer => "integer"@,
            InputType::Boolean => "boolean"@,
            InputType::Artifact => "artifact"@,
            InputType::Json => "json"@,
        }
    }

    pub fn as_str(&self) -> (r: &'static str)
        ensures
            r@ == self.label(),
    {
        match self {
            InputType::String => "string",
            InputType::Integer => "integer",
            InputType::Boolean => "boolean",
            InputType::Artifact => "artifact",
            InputType::Json => "json",
        }
    }

    /// Reads a protocol name back.
    pub fn parse(value: &str) -> (r: Option<Self>)
        ensures
            forall|v: InputType| (r == Some(v)) == (#[trigger] v.label() == value@),
    {
        proof {
            input_type_labels_distinct();
        }
        let found = if text::same(value, "string") {
            Some(InputType::String)
        } else if text::same(value, "integer") {
            Some(InputType::Integer)
        } else if text::same(value, "boolean") {
            Some(InputType::Boolean)
        } else if text::same(value, "artifact") {
            Some(InputType::Artifact)
        } else if text::same(value, "json") {
            Some(InputType::Json)
        } else {
            None
        };
        assert(found matches Some(v) ==> v.label() == value@);
        found
    }
}

/// Different values have different names.
pub proof fn input_type_labels_distinct()
    ensures
        forall|a: InputType, b: InputType| #[trigger] a.label() == #[trigger] b.label() ==> a == b,
{
    reveal_strlit("string");
    reveal_strlit("integer");
    reveal_strlit("boolean");
    reveal_strlit("artifact");
    reveal_strlit("json");
    assert forall|a: InputType, b: InputType| #[trigger] a.label() == #[trigger] b.label() implies a == b by {
        let (x, y) = (a.label(), b.label());
        assert(x.len() == y.len() && x[0] == y[0] && x[1] == y[1] && x[2] == y[2]);
    }
}

/// The type of a job output.
#[derive(Debug, Clone, Copy, PartialEq, Eq, Structural)]
pub enum OutputType {
    Artifact,
    String,
    Integer,
    Boolean,
    Json,
}

impl OutputType {
    /// The name that stands for the value in protocol texts.
    pub open spec fn label(self) -> Seq<char> {
        match self {
            OutputType::Artifact => "artifact"@,
            OutputType::String => "string"@,
            OutputType::Integer => "integer"@,
            OutputType::Boolean => "boolean"@,
            OutputType::Json => "json"@,
        }
    }

    pub fn as_str(&self) -> (r: &'static str)
        ensures
            r@ == self.label(),
    {
        match self {
            OutputType::Artifact => "artifact",
            OutputType::String => "string",
            OutputType::Integer => "integer",
            OutputType::Boolean => "boolean",
            OutputType::Json => "json",
        }
    }

    /// Reads a protocol name back.
    pub fn parse(value: &str) -> (r: Option<Self>)
        ensures
            forall|v: OutputType| (r == Some(v)) == (#[trigger] v.label() == value@),
    {
        proof {
            output_type_labels_distinct();
        }
        let found = if text::same(value, "artifact") {
            Some(OutputType::Artifact)
        } else if text::same(value, "string") {
            Some(OutputType::String)
        } else if text::same(value, "integer") {
            Some(OutputType::Integer)
        } else if text::same(value, "boolean") {
            Some(OutputType::Boolean)
        } else if text::same(value, "json") {
            Some(OutputType::Json)
        } else {
            None
        };
        assert(found matches Some(v) ==> v.label() == value@);
        found
    }
}

/// Different values have different names.
pub proof fn output_type_labels_distinct()
    ensures
        forall|a: OutputType, b: OutputType| #[trigger] a.label() == #[trigger] b.label() ==> a == b,
{
    reveal_strlit("artifact");
    reveal_strlit("string");
    reveal_strlit("integer");
    reveal_strlit("boolean");
    reveal_strlit("json");
    assert forall|a: OutputType, b: OutputType| #[trigger] a.label() == #[trigger] b.label() implies a == b by {
        let (x, y) = (a.label(), b.label());
        assert(x.len() == y.len() && x[0] == y[0] && x[1] == y[1] && x[2] == y[2]);
    }
}

/// What else may run while a job runs.
#[derive(Debug, Clone, Copy, PartialEq, Eq, Structural)]
pub enum Concurrency {
    Parallel,
    JobExclusive,
    GlobalExclusive,
}

impl Concurrency {
    /// The name that stands for the value in protocol texts.
    pub open spec fn label(self) -> Seq<char> {
        match self {
            Concurrency::Parallel => "parallel"@,
            Concurrency::JobExclusive => "job_exclusive"@,
            Concurrency::GlobalExclusive => "global_exclusive"@,
        }
    }

    pub fn as_str(&self) -> (r: &'static str)
        ensures
            r@ == self.label(),
    {
        match self {
            Concurrency::Parallel => "parallel",
            Concurrency::JobExclusive => "job_exclusive",
            Concurrency::GlobalExclusive => "global_exclusive",
        }
    }

    /// Reads a protocol name back.
    pub fn parse(value: &str) -> (r: Option<Self>)
        ensures
            forall|v: Concurrency| (r == Some(v)) == (#[trigger] v.label() == value@),
    {
        proof {
            concurrency_labels_distinct();
        }
        let found = if text::same(value, "parallel") {
            Some(Concurrency::Parallel)
        } else if text::same(value, "job_exclusive") {
            Some(Concurrency::JobExclusive)
        } else if text::same(value, "global_exclusive") {
            Some(Concurrency::GlobalExclusive)
        } else {
            None
        };
        assert(found matches Some(v) ==> v.label() == value@);
        found
    }
}

/// Different values have different names.
pub proof fn concurrency_labels_distinct()
    ensures
        forall|a: Concurrency, b: Concurrency| #[trigger] a.label() == #[trigger] b.label() ==> a == b,
{
    reveal_strlit("parallel");
    reveal_strlit("job_exclusive");
    reveal_strlit("global_exclusive");
    assert forall|a: Concurrency, b: Concurrency| #[trigger] a.label() == #[trigger] b.label() implies a == b by {
        let (x, y) = (a.label(), b.label());
        assert(x.len() == y.len() && x[0] == y[0] && x[1] == y[1] && x[2] == y[2]);
    }
}

impl Default for Concurrency {
    fn default() -> (r: Self)
        ensures
            r == Concurrency::Parallel,
    {
        Concurrency::Parallel
    }
}

/// An input of an advertised job.
#[derive(Debug, Clone, PartialEq, Eq)]
pub struct JobInputDefinitionResponse {
    pub kind: InputType,
    pub required: bool,
    pub sensitive: bool,
    pub max_length: Option<usize>,
    pub pattern: Option<String>,
    pub max_json_bytes: Option<usize>,
}

/// An output of an advertised job.
#[derive(Debug, Clone, PartialEq, Eq)]
pub struct JobOutputDefinitionResponse {
    pub kind: OutputType,
    pub path: String,
    pub required: bool,
}

/// A job as the runner advertises it.
#[derive(Debug, Clone, PartialEq, Eq)]
pub struct JobDefinitionResponse {
    pub name: String,
    pub concurrency: Concurrency,
    pub timeout_seconds: u64,
    pub inputs: NameMap<JobInputDefinitionResponse>,
    pub outputs: NameMap<JobOutputDefinitionResponse>,
}

impl Default for JobDefinitionResponse {
    fn default() -> (r: Self)
        ensures
            r.name@ == Seq::<char>::empty(),
            r.concurrency == Concurrency::Parallel,
            r.timeout_seconds == 0,
            r.inputs@.len() == 0,
            r.outputs@.len() == 0,
    {
        JobDefinitionResponse {
            name: String::new(),
            concurrency: Concurrency::Parallel,
            timeout_seconds: 0,
            inputs: NameMap::new(),
            outputs: NameMap::new(),
        }
    }
}

/// Whether a flag is off; a flag that is off is left out of the advertised schema.
pub fn is_false(value: &bool) -> (r: bool)
    ensures
        r == !*value,
{
    !*value
}

} // verus!
