//! The trusted boundary to the upstream wire format. Each function here
//! wraps `serde_json` parsing of one upstream message shape and hands the
//! verified code plain values. The parse results are functions of the input
//! text alone, so each is given an uninterpreted name that the wrapper's
//! contract applies; everything downstream of these wrappers is verified.

use vstd::prelude::*;

verus! {

/// One object of the upstream pull-progress stream, reduced to the fields
/// the orchestrator reads. Absent fields stay `None`.
pub struct PullChunk {
    pub status: Option<String>,
    pub total: Option<u64>,
    pub completed: Option<u64>,
    pub error: Option<String>,
}

/// The mathematical value of a [`PullChunk`].
pub struct PullChunkView {
    pub status: Option<Seq<char>>,
    pub total: Option<u64>,
    pub completed: Option<u64>,
    pub error: Option<Seq<char>>,
}

impl View for PullChunk {
    type V = PullChunkView;

    open spec fn view(&self) -> PullChunkView {
        PullChunkView {
            status: match self.status {
                Some(s) => Some(s@),
                None => None,
            },
            total: self.total,
            completed: self.completed,
            error: match self.error {
                Some(e) => Some(e@),
                None => None,
            },
        }
    }
}

/// One object of the upstream generation stream: an optional token fragment
/// and the completion flag (absent means not done).
pub struct GenChunk {
    pub response: Option<String>,
    pub done: bool,
}

/// The mathematical value of a [`GenChunk`].
pub struct GenChunkView {
    pub response: Option<Seq<char>>,
    pub done: bool,
}

impl View for GenChunk {
    type V = GenChunkView;

    open spec fn view(&self) -> GenChunkView {
        GenChunkView {
            response: match self.response {
                Some(s) => Some(s@),
                None => None,
            },
            done: self.done,
        }
    }
}

/// What one line of the upstream pull stream parses to: the reduced object,
/// or nothing for a line that is not a JSON object.
pub uninterp spec fn pull_chunk_of(line: Seq<char>) -> Option<PullChunkView>;

/// What one line of the upstream generation stream parses to.
pub uninterp spec fn gen_chunk_of(line: Seq<char>) -> Option<GenChunkView>;

/// The model names listed in the upstream status payload, in order; empty
/// for a payload without a well-formed model list.
pub uninterp spec fn models_of(body: Seq<char>) -> Seq<Seq<char>>;

/// Relies on `serde_json::from_str::<Value>` and the `Value` accessors
/// `get`, `as_str` and `as_u64`: parses one pull-progress line and copies
/// out the `status`, `total`, `completed` and `error` fields, `None` for a
/// line that is not valid JSON. The result depends on the line alone.
#[verifier::external_body]
pub(crate) fn parse_pull_chunk(line: &str) -> (r: Option<PullChunk>)
    ensures
        match r {
            Some(c) => pull_chunk_of(line@) == Some(c@),
            None => pull_chunk_of(line@) is None,
        },
{
    let v: serde_json::Value = match serde_json::from_str(line) {
        Ok(v) => v,
        Err(_) => return None,
    };
    Some(PullChunk {
        status: v.get("status").and_then(|s| s.as_str()).map(|s| s.to_string()),
        total: v.get("total").and_then(|t| t.as_u64()),
        completed: v.get("completed").and_then(|c| c.as_u64()),
        error: v.get("error").and_then(|e| e.as_str()).map(|s| s.to_string()),
    })
}

/// Relies on `serde_json::from_str::<Value>` and the `Value` accessors
/// `get`, `as_str` and `as_bool`: parses one generation line and copies out
/// the `response` fragment and the `done` flag (absent or non-boolean means
/// not done), `None` for a line that is not valid JSON. The result depends
/// on the line alone.
#[verifier::external_body]
pub(crate) fn parse_gen_chunk(line: &str) -> (r: Option<GenChunk>)
    ensures
        match r {
            Some(c) => gen_chunk_of(line@) == Some(c@),
            None => gen_chunk_of(line@) is None,
        },
{
    let v: serde_json::Value = match serde_json::from_str(line) {
        Ok(v) => v,
        Err(_) => return None,
    };
    Some(GenChunk {
        response: v.get("response").and_then(|s| s.as_str()).map(|s| s.to_string()),
        done: v.get("done").and_then(|d| d.as_bool()).unwrap_or(false),
    })
}

/// Relies on `serde_json::from_str::<Value>` and the `Value` accessors
/// `get`, `as_array` and `as_str`: reads the `models` array of the upstream
/// status payload and copies out each entry's `name`, skipping entries
/// without one; empty for a payload that is not valid JSON or has no model
/// array. The result depends on the payload alone.
#[verifier::external_body]
pub(crate) fn parse_models_payload(body: &str) -> (r: Vec<String>)
    ensures
        r.deep_view() == models_of(body@),
{
    let v: serde_json::Value = match serde_json::from_str(body) {
        Ok(v) => v,
        Err(_) => return Vec::new(),
    };
    match v.get("models").and_then(|m| m.as_array()) {
        Some(arr) => arr
            .iter()
            .filter_map(|e| e.get("name").and_then(|n| n.as_str()).map(|s| s.to_string()))
            .collect(),
        None => Vec::new(),
    }
}

} // verus!
