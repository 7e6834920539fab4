//! Properties that relate the stages of the pipeline to each other, proved
//! once over the specification functions that the hooks' contracts use.

use vstd::prelude::*;

use crate::context::QueryInfoInner;
use crate::document::DocumentModel;
use crate::document::document_is_schema;
use crate::hooks::elapsed_ms;
use crate::hooks::execute_lines;
use crate::hooks::parse_ctx;
use crate::hooks::parse_lines;
use crate::hooks::validation_lines;
use crate::lines::LogLevel;
use crate::lines::duration_text;
use crate::lines::id_tag;
use crate::lines::validation_text;

verus! {

/// The correlation id and the start time survive the parse stage's context
/// update: only the introspection flag changes, and no other stage writes to
/// the record at all.  The id read at validation, parse and execution time
/// is therefore the id the request was created with, and well-formedness
/// (the id lies in the documented range) is preserved.
pub proof fn lemma_id_stable_across_parse(info: QueryInfoInner, is_schema: bool)
    ensures
        parse_ctx(Some(info), is_schema) matches Some(q) && q.id == info.id
            && q.start_time_ms == info.start_time_ms && (q.wf() <==> info.wf()),
{
}

/// One validation-failure line per validation error: the counts agree, every
/// line is informational, and the k-th line is exactly the request's id tag
/// followed by the failure notice and the k-th error message.
pub proof fn lemma_validation_line_per_error(q: QueryInfoInner, msgs: Seq<Seq<char>>)
    ensures
        validation_lines(Some(q), Some(msgs)).len() == msgs.len(),
        forall|k: int|
            0 <= k < msgs.len() ==> #[trigger] validation_lines(Some(q), Some(msgs))[k] == (
            LogLevel::Info,
            validation_text(q.id, msgs[k]),
            ),
{
}

/// An introspection document suppresses logging from the parse stage on:
/// the parse stage emits no query-text line and marks the context, and the
/// execution stage, seeing the marked context, emits neither error nor
/// response nor duration lines — whatever the response carried and whatever
/// the clock read.
pub proof fn lemma_schema_query_suppresses_logging(
    q: QueryInfoInner,
    doc: DocumentModel,
    rendered: Seq<char>,
    errors: Seq<Seq<char>>,
    data: Seq<char>,
    now: int,
)
    requires
        document_is_schema(doc),
    ensures
        parse_lines(Some(q), document_is_schema(doc), rendered) == Seq::<(
            LogLevel,
            Seq<char>,
        )>::empty(),
        parse_ctx(Some(q), document_is_schema(doc)) matches Some(p) && p.is_schema,
        execute_lines(parse_ctx(Some(q), document_is_schema(doc)), errors, data, now) == Seq::<(
            LogLevel,
            Seq<char>,
        )>::empty(),
{
}

/// A successfully parsed non-introspection document yields exactly one
/// parse-time line: informational, the request's id tag followed by the
/// stringified document.
pub proof fn lemma_non_schema_parse_logs_once(
    q: QueryInfoInner,
    doc: DocumentModel,
    rendered: Seq<char>,
)
    requires
        !document_is_schema(doc),
    ensures
        parse_lines(Some(q), document_is_schema(doc), rendered).len() == 1,
        parse_lines(Some(q), document_is_schema(doc), rendered)[0] == (
            LogLevel::Info,
            id_tag(q.id) + rendered,
        ),
{
}

/// Under a well-behaved clock — execution completes no earlier than the
/// request arrived, and the elapsed time fits the millisecond counter — the
/// duration in the completion line is exactly the wall-clock difference
/// between the two readings, and in particular non-negative.  A clock
/// stepped backwards between the readings falls outside this law: the
/// emitted duration is then the (clamped) negative difference.
pub proof fn lemma_duration_tracks_clock(
    q: QueryInfoInner,
    errors: Seq<Seq<char>>,
    data: Seq<char>,
    now: int,
)
    requires
        !q.is_schema,
        q.start_time_ms <= now,
        now - q.start_time_ms <= i64::MAX,
    ensures
        elapsed_ms(q.start_time_ms as int, now) == now - q.start_time_ms,
        elapsed_ms(q.start_time_ms as int, now) >= 0,
        execute_lines(Some(q), errors, data, now).last() == (
            LogLevel::Info,
            duration_text(q.id, now - q.start_time_ms),
        ),
{
    let all = execute_lines(Some(q), errors, data, now);
    assert(all.len() == errors.len() + 2);
    assert(all[errors.len() as int + 1] == (
        LogLevel::Info,
        duration_text(q.id, elapsed_ms(q.start_time_ms as int, now)),
    ));
}

} // verus!
