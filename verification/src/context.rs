//! The per-request state record: a correlation id, the arrival time, and the
//! introspection flag that the parse stage fills in.

use vstd::prelude::*;

verus! {

/// Smallest correlation id that may be handed out.
pub const MIN_QUERY_ID: u64 = 100_000_000;

/// Largest correlation id that may be handed out.
pub const MAX_QUERY_ID: u64 = 999_999_999;

/// The mutable per-request record.  One value exists per in-flight request;
/// the hosting framework may share it across its task boundaries, so callers
/// that need a lock wrap this record themselves.
#[derive(Clone, Copy, PartialEq, Eq, Structural, Debug)]
pub struct QueryInfoInner {
    /// Human-scannable correlation token, fixed at creation.
    pub id: u64,
    /// Wall-clock time at request arrival, milliseconds since the Unix epoch.
    pub start_time_ms: i64,
    /// Whether the parsed document turned out to be an introspection query.
    pub is_schema: bool,
}

impl QueryInfoInner {
    /// A well-formed record carries a correlation id in the documented range.
    pub open spec fn wf(self) -> bool {
        MIN_QUERY_ID <= self.id <= MAX_QUERY_ID
    }
}

/// Request-scoped container around [`QueryInfoInner`], created once per
/// incoming request before the pipeline runs.
#[derive(Debug)]
pub struct QueryInfo {
    pub inner: QueryInfoInner,
}

/// Relies on `rand::thread_rng` and `rand::Rng::gen_range`: a random integer
/// drawn from the given inclusive range.  The range is non-empty, so the call
/// does not panic.
#[verifier::external_body]
fn random_query_id() -> (r: u64)
    ensures
        MIN_QUERY_ID <= r <= MAX_QUERY_ID,
{
    rand::Rng::gen_range(&mut rand::thread_rng(), MIN_QUERY_ID..=MAX_QUERY_ID)
}

/// Relies on `chrono::Utc::now` and `chrono::DateTime::timestamp_millis`: the
/// current wall-clock time in milliseconds since the Unix epoch.  Nothing is
/// assumed of the value: the clock may move either way between calls.  The
/// call panics only on a system clock set before the epoch.
#[verifier::external_body]
fn current_time_ms() -> (r: i64) {
    chrono::Utc::now().timestamp_millis()
}

impl QueryInfo {
    /// Creates the record for a fresh request: a random id in the documented
    /// range, the time now, and the introspection flag cleared.
    pub fn new() -> (q: QueryInfo)
        ensures
            q.inner.wf(),
            !q.inner.is_schema,
    {
        QueryInfo {
            inner: QueryInfoInner {
                id: random_query_id(),
                start_time_ms: current_time_ms(),
                is_schema: false,
            },
        }
    }
}

} // verus!
