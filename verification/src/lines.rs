//! The log lines the middleware owes the sink: their levels and their exact
//! text, built from the correlation id and the stage's payload.

use vstd::prelude::*;

verus! {

/// Severity of an emitted line.
#[derive(Clone, Copy, PartialEq, Eq, Structural, Debug)]
pub enum LogLevel {
    Info,
    Debug,
}

/// One line owed to the log sink.
#[derive(Clone, Debug)]
pub struct LogLine {
    pub level: LogLevel,
    pub text: String,
}

/// Abstract value of a line: its level and the characters of its text.
pub open spec fn line_view(l: LogLine) -> (LogLevel, Seq<char>) {
    (l.level, l.text@)
}

/// Abstract value of a batch of lines, in emission order.
pub open spec fn line_views(s: Seq<LogLine>) -> Seq<(LogLevel, Seq<char>)> {
    s.map_values(|l: LogLine| line_view(l))
}

/// The single decimal digit character for `d` (`d < 10`).
pub open spec fn digit_str(d: nat) -> Seq<char> {
    if d == 0 {
        "0"@
    } else if d == 1 {
        "1"@
    } else if d == 2 {
        "2"@
    } else if d == 3 {
        "3"@
    } else if d == 4 {
        "4"@
    } else if d == 5 {
        "5"@
    } else if d == 6 {
        "6"@
    } else if d == 7 {
        "7"@
    } else if d == 8 {
        "8"@
    } else {
        "9"@
    }
}

/// The decimal digits of `n`, most significant first, no sign and no
/// leading zero (except for `n == 0` itself).
pub open spec fn dec_str(n: nat) -> Seq<char>
    decreases n,
{
    if n < 10 {
        digit_str(n)
    } else {
        dec_str(n / 10) + digit_str(n % 10)
    }
}

/// The decimal rendering of a possibly negative number: a leading minus
/// sign for negative values, then the digits of the magnitude.
pub open spec fn int_dec_str(n: int) -> Seq<char> {
    if n < 0 {
        "-"@ + dec_str((-n) as nat)
    } else {
        dec_str(n as nat)
    }
}

/// Appends the decimal digits of `n` to `s`.
fn push_u64_dec(s: &mut String, n: u64)
    ensures
        final(s)@ == old(s)@ + dec_str(n as nat),
    decreases n,
{
    if n >= 10 {
        push_u64_dec(s, n / 10);
    }
    let d: u64 = n % 10;
    let ds: &str = if d == 0 {
        "0"
    } else if d == 1 {
        "1"
    } else if d == 2 {
        "2"
    } else if d == 3 {
        "3"
    } else if d == 4 {
        "4"
    } else if d == 5 {
        "5"
    } else if d == 6 {
        "6"
    } else if d == 7 {
        "7"
    } else if d == 8 {
        "8"
    } else {
        "9"
    };
    s.append(ds);
    proof {
        if n >= 10 {
            assert((old(s)@ + dec_str((n / 10) as nat)) + digit_str((n % 10) as nat) =~= old(
                s,
            )@ + dec_str(n as nat));
        }
    }
}

/// Renders `n` in decimal.
pub fn u64_to_string(n: u64) -> (s: String)
    ensures
        s@ == dec_str(n as nat),
{
    let mut s = String::new();
    push_u64_dec(&mut s, n);
    proof {
        assert(Seq::<char>::empty() + dec_str(n as nat) =~= dec_str(n as nat));
    }
    s
}

/// Renders `n` in decimal, with a minus sign for negative values.
pub fn i64_to_string(n: i64) -> (s: String)
    ensures
        s@ == int_dec_str(n as int),
{
    if n >= 0 {
        u64_to_string(n as u64)
    } else {
        let mut s = String::from_str("-");
        let wide: i128 = -(n as i128);
        assert(0 <= wide <= u64::MAX);
        let m: u64 = wide as u64;
        push_u64_dec(&mut s, m);
        s
    }
}

/// The tag that opens every line of one request.
pub open spec fn id_tag(id: u64) -> Seq<char> {
    "[QueryID: "@ + dec_str(id as nat) + "] "@
}

/// Text of a validation-failure line.
pub open spec fn validation_text(id: u64, msg: Seq<char>) -> Seq<char> {
    id_tag(id) + "Validation is failed with reason: "@ + msg
}

/// Text of the parse-time line holding the stringified document.
pub open spec fn query_text(id: u64, rendered: Seq<char>) -> Seq<char> {
    id_tag(id) + rendered
}

/// Text of an execution-error line.
pub open spec fn error_text(id: u64, msg: Seq<char>) -> Seq<char> {
    id_tag(id) + "[Error] "@ + msg
}

/// Text of the line holding the serialized response data.
pub open spec fn response_text(id: u64, data: Seq<char>) -> Seq<char> {
    id_tag(id) + "Response: "@ + data
}

/// Text of the completion line holding the elapsed milliseconds.
pub open spec fn duration_text(id: u64, ms: int) -> Seq<char> {
    id_tag(id) + "Duration: "@ + int_dec_str(ms) + "ms"@
}

/// Builds the tag that opens every line of one request.
fn id_tag_string(id: u64) -> (s: String)
    ensures
        s@ == id_tag(id),
{
    let mut s = String::from_str("[QueryID: ");
    push_u64_dec(&mut s, id);
    s.append("] ");
    s
}

/// The validation-failure line for one upstream validation error.
pub fn validation_line(id: u64, msg: &str) -> (l: LogLine)
    ensures
        l.level == LogLevel::Info,
        l.text@ == validation_text(id, msg@),
{
    let mut s = id_tag_string(id);
    s.append("Validation is failed with reason: ");
    s.append(msg);
    LogLine { level: LogLevel::Info, text: s }
}

/// The parse-time line holding the stringified document.
pub fn query_line(id: u64, rendered: &str) -> (l: LogLine)
    ensures
        l.level == LogLevel::Info,
        l.text@ == query_text(id, rendered@),
{
    let mut s = id_tag_string(id);
    s.append(rendered);
    LogLine { level: LogLevel::Info, text: s }
}

/// The line for one error carried by the execution response.
pub fn error_line(id: u64, msg: &str) -> (l: LogLine)
    ensures
        l.level == LogLevel::Info,
        l.text@ == error_text(id, msg@),
{
    let mut s = id_tag_string(id);
    s.append("[Error] ");
    s.append(msg);
    LogLine { level: LogLevel::Info, text: s }
}

/// The debug line holding the serialized response data.
pub fn response_line(id: u64, data: &str) -> (l: LogLine)
    ensures
        l.level == LogLevel::Debug,
        l.text@ == response_text(id, data@),
{
    let mut s = id_tag_string(id);
    s.append("Response: ");
    s.append(data);
    LogLine { level: LogLevel::Debug, text: s }
}

/// The completion line holding the elapsed milliseconds.
pub fn duration_line(id: u64, ms: i64) -> (l: LogLine)
    ensures
        l.level == LogLevel::Info,
        l.text@ == duration_text(id, ms as int),
{
    let mut s = id_tag_string(id);
    s.append("Duration: ");
    let rendered = i64_to_string(ms);
    s.append(rendered.as_str());
    s.append("ms");
    LogLine { level: LogLevel::Info, text: s }
}

} // verus!
