//! The three lifecycle hooks of the logging middleware, as functions from
//! plain values to the lines owed to the log sink.  Each hook observes its
//! stage's outcome and never alters it: validation outcomes and execution
//! responses pass through unchanged, and only the parse stage writes to the
//! request's context record (its introspection flag).

use vstd::prelude::*;

use crate::context::QueryInfoInner;
use crate::document::DocumentModel;
use crate::document::document_is_schema;
use crate::lines::LogLevel;
use crate::lines::LogLine;
use crate::lines::duration_line;
use crate::lines::duration_text;
use crate::lines::error_line;
use crate::lines::error_text;
use crate::lines::line_views;
use crate::lines::query_line;
use crate::lines::query_text;
use crate::lines::response_line;
use crate::lines::response_text;
use crate::lines::validation_line;
use crate::lines::validation_text;

verus! {

/// Factory for the logging interceptor that the hosting engine attaches to
/// its pipeline.  Stateless: every request shares one interceptor.
pub struct Logger;

/// The logging interceptor itself.  It carries no state of its own; all
/// request-scoped state lives in the request's [`QueryInfoInner`].
pub struct LoggerExtension;

impl Logger {
    /// Produces the interceptor instance.
    pub fn create(&self) -> (e: LoggerExtension) {
        LoggerExtension
    }
}

/// The parts of an execution response that the middleware reads: the
/// messages of the errors it carries and the serialized data payload.
#[derive(Clone, Debug, PartialEq, Eq)]
pub struct ResponseModel {
    pub errors: Vec<String>,
    pub data: String,
}

/// The characters of each message in a batch.
pub open spec fn msg_views(s: Seq<String>) -> Seq<Seq<char>> {
    s.map_values(|m: String| m@)
}

/// The messages of a validation outcome's errors, or `None` when the
/// upstream validation succeeded.
pub open spec fn failure_of(outcome: Result<(), Vec<String>>) -> Option<Seq<Seq<char>>> {
    match outcome {
        Ok(_) => None,
        Err(es) => Some(msg_views(es@)),
    }
}

/// The lines owed after validation: one informational failure line per
/// error when validation failed and a context is attached, none otherwise.
pub open spec fn validation_lines(
    info: Option<QueryInfoInner>,
    failure: Option<Seq<Seq<char>>>,
) -> Seq<(LogLevel, Seq<char>)> {
    match (info, failure) {
        (Some(q), Some(msgs)) => Seq::new(
            msgs.len(),
            |i: int| (LogLevel::Info, validation_text(q.id, msgs[i])),
        ),
        _ => Seq::empty(),
    }
}

/// The context record after the parse stage: the introspection flag is set
/// to what the parsed document showed, everything else is untouched.  An
/// absent context stays absent.
pub open spec fn parse_ctx(info: Option<QueryInfoInner>, is_schema: bool) -> Option<
    QueryInfoInner,
> {
    match info {
        Some(q) => Some(QueryInfoInner { is_schema, ..q }),
        None => None,
    }
}

/// The lines owed after a successful parse: one informational line with the
/// stringified document, unless the document is an introspection query or no
/// context is attached.
pub open spec fn parse_lines(
    info: Option<QueryInfoInner>,
    is_schema: bool,
    rendered: Seq<char>,
) -> Seq<(LogLevel, Seq<char>)> {
    match info {
        Some(q) => if is_schema {
            Seq::empty()
        } else {
            seq![(LogLevel::Info, query_text(q.id, rendered))]
        },
        None => Seq::empty(),
    }
}

/// Milliseconds elapsed between two clock readings, clamped to the range of
/// the millisecond counter.
pub open spec fn elapsed_ms(start: int, now: int) -> int {
    if now - start > i64::MAX {
        i64::MAX as int
    } else if now - start < i64::MIN {
        i64::MIN as int
    } else {
        now - start
    }
}

/// The lines owed after execution: one informational line per response
/// error, a debug line with the serialized data, and an informational
/// completion line with the elapsed milliseconds — unless the request was
/// marked as an introspection query or no context is attached.
pub open spec fn execute_lines(
    info: Option<QueryInfoInner>,
    errors: Seq<Seq<char>>,
    data: Seq<char>,
    now: int,
) -> Seq<(LogLevel, Seq<char>)> {
    match info {
        Some(q) => if q.is_schema {
            Seq::empty()
        } else {
            Seq::new(errors.len(), |i: int| (LogLevel::Info, error_text(q.id, errors[i])))
                + seq![
                (LogLevel::Debug, response_text(q.id, data)),
                (
                    LogLevel::Info,
                    duration_text(q.id, elapsed_ms(q.start_time_ms as int, now)),
                ),
            ]
        },
        None => Seq::empty(),
    }
}

/// Milliseconds elapsed between two clock readings, clamped to `i64`.
pub fn duration_since(start: i64, now: i64) -> (d: i64)
    ensures
        d as int == elapsed_ms(start as int, now as int),
{
    let wide: i128 = now as i128 - start as i128;
    if wide > i64::MAX as i128 {
        i64::MAX
    } else if wide < i64::MIN as i128 {
        i64::MIN
    } else {
        wide as i64
    }
}

impl LoggerExtension {
    /// Post-validation hook.  The upstream outcome passes through unchanged;
    /// when it failed and a context is attached, one informational line per
    /// validation error is owed, carrying the request id and the error's
    /// message.
    pub fn validation(&self, info: Option<QueryInfoInner>, outcome: Result<(), Vec<String>>) -> (r:
        (Result<(), Vec<String>>, Vec<LogLine>))
        ensures
            r.0 == outcome,
            line_views(r.1@) == validation_lines(info, failure_of(outcome)),
    {
        let mut out: Vec<LogLine> = Vec::new();
        match (&info, &outcome) {
            (Some(q), Err(errors)) => {
                let mut i: usize = 0;
                while i < errors.len()
                    invariant
                        i <= errors@.len(),
                        out@.len() == i,
                        forall|k: int|
                            0 <= k < i ==> crate::lines::line_view(#[trigger] out@[k]) == (
                            LogLevel::Info,
                            validation_text(q.id, errors@[k]@),
                            ),
                    decreases errors@.len() - i,
                {
                    let l = validation_line(q.id, errors[i].as_str());
                    out.push(l);
                    i += 1;
                }
                proof {
                    assert(line_views(out@) =~= validation_lines(info, failure_of(outcome)));
                }
            },
            _ => {
                proof {
                    assert(line_views(out@) =~= validation_lines(info, failure_of(outcome)));
                }
            },
        }
        (outcome, out)
    }

    /// Post-parse hook, reached only on a successful parse (a parse failure
    /// is the upstream's to report and bypasses this hook).  Sets the
    /// context's introspection flag from the document and owes one
    /// informational line with the stringified document — none for an
    /// introspection query, none when no context is attached.
    pub fn parse_query(
        &self,
        info: Option<QueryInfoInner>,
        doc: &DocumentModel,
        rendered: &str,
    ) -> (r: (Option<QueryInfoInner>, Vec<LogLine>))
        ensures
            r.0 == parse_ctx(info, document_is_schema(*doc)),
            line_views(r.1@) == parse_lines(info, document_is_schema(*doc), rendered@),
    {
        let mut out: Vec<LogLine> = Vec::new();
        match info {
            Some(q) => {
                let is_schema = doc.is_schema_query();
                let updated = QueryInfoInner {
                    id: q.id,
                    start_time_ms: q.start_time_ms,
                    is_schema,
                };
                if !is_schema {
                    out.push(query_line(q.id, rendered));
                }
                proof {
                    assert(line_views(out@) =~= parse_lines(
                        info,
                        document_is_schema(*doc),
                        rendered@,
                    ));
                }
                (Some(updated), out)
            },
            None => {
                proof {
                    assert(line_views(out@) =~= parse_lines(
                        info,
                        document_is_schema(*doc),
                        rendered@,
                    ));
                }
                (None, out)
            },
        }
    }

    /// Post-execution hook.  The response passes through unchanged; when a
    /// context is attached and the request is not an introspection query,
    /// one informational line per response error, a debug line with the
    /// serialized data, and an informational completion line with the
    /// elapsed milliseconds are owed.
    pub fn execute(&self, info: Option<QueryInfoInner>, resp: ResponseModel, now_ms: i64) -> (r: (
        ResponseModel,
        Vec<LogLine>,
    ))
        ensures
            r.0 == resp,
            line_views(r.1@) == execute_lines(info, msg_views(resp.errors@), resp.data@, now_ms as int),
    {
        let mut out: Vec<LogLine> = Vec::new();
        match &info {
            Some(q) => {
                if !q.is_schema {
                    let mut i: usize = 0;
                    while i < resp.errors.len()
                        invariant
                            i <= resp.errors@.len(),
                            out@.len() == i,
                            forall|k: int|
                                0 <= k < i ==> crate::lines::line_view(#[trigger] out@[k]) == (
                                LogLevel::Info,
                                error_text(q.id, resp.errors@[k]@),
                                ),
                        decreases resp.errors@.len() - i,
                    {
                        let l = error_line(q.id, resp.errors[i].as_str());
                        out.push(l);
                        i += 1;
                    }
                    out.push(response_line(q.id, resp.data.as_str()));
                    let d = duration_since(q.start_time_ms, now_ms);
                    out.push(duration_line(q.id, d));
                }
            },
            None => {},
        }
        proof {
            assert(line_views(out@) =~= execute_lines(
                info,
                msg_views(resp.errors@),
                resp.data@,
                now_ms as int,
            ));
        }
        (resp, out)
    }
}

} // verus!
