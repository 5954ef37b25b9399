//! The operation logger's line format and its append law.  The application
//! appends each rendered line to the log file without truncating it; the
//! law here states what appending one entry does to the log's content.

use vstd::prelude::*;
use crate::text::no_newline;

verus! {

/// One log line: timestamp, separator, message, line break.
pub open spec fn spec_log_line(ts: Seq<char>, msg: Seq<char>) -> Seq<char> {
    ts + " - "@ + msg + "\n"@
}

/// How many lines a text holds, counted by its line breaks.
pub open spec fn line_count(s: Seq<char>) -> nat
    decreases s.len(),
{
    if s.len() == 0 {
        0
    } else {
        (if s[0] == '\n' { 1nat } else { 0nat }) + line_count(s.subrange(1, s.len() as int))
    }
}

proof fn lemma_line_count_concat(a: Seq<char>, b: Seq<char>)
    ensures
        line_count(a + b) == line_count(a) + line_count(b),
    decreases a.len(),
{
    if a.len() == 0 {
        assert(a + b =~= b);
    } else {
        assert((a + b).subrange(1, (a + b).len() as int)
            =~= a.subrange(1, a.len() as int) + b);
        lemma_line_count_concat(a.subrange(1, a.len() as int), b);
    }
}

proof fn lemma_line_count_no_newline(s: Seq<char>)
    requires
        no_newline(s),
    ensures
        line_count(s) == 0,
    decreases s.len(),
{
    if s.len() > 0 {
        lemma_line_count_no_newline(s.subrange(1, s.len() as int));
    }
}

/// Log append law: appending one rendered entry to any log content leaves
/// every prior character in place and grows the line count by exactly one,
/// whenever timestamp and message span no lines themselves.
pub proof fn lemma_log_append(log: Seq<char>, ts: Seq<char>, msg: Seq<char>)
    requires
        no_newline(ts),
        no_newline(msg),
    ensures
        (log + spec_log_line(ts, msg)).subrange(0, log.len() as int) == log,
        line_count(log + spec_log_line(ts, msg)) == line_count(log) + 1,
{
    let line = spec_log_line(ts, msg);
    assert((log + line).subrange(0, log.len() as int) =~= log);
    lemma_line_count_concat(log, line);
    assert(line_count(line) == 1) by {
        reveal_strlit(" - ");
        reveal_strlit("\n");
        lemma_line_count_concat(ts + " - "@ + msg, "\n"@);
        lemma_line_count_concat(ts + " - "@, msg);
        lemma_line_count_concat(ts, " - "@);
        lemma_line_count_no_newline(ts);
        lemma_line_count_no_newline(msg);
        lemma_line_count_no_newline(" - "@);
        assert(line_count("\n"@) == 1) by {
            let nl = "\n"@;
            assert(nl.subrange(1, 1) =~= Seq::<char>::empty());
            assert(line_count(Seq::<char>::empty()) == 0);
            assert(line_count(nl) == 1 + line_count(nl.subrange(1, 1)));
        }
    }
}

/// Renders one log line from a timestamp and a message.
pub fn format_log_line(ts: &str, msg: &str) -> (r: String)
    ensures
        r@ == spec_log_line(ts@, msg@),
{
    let mut out = String::from_str(ts);
    out.append(" - ");
    out.append(msg);
    out.append("\n");
    proof {
        assert(out@ =~= spec_log_line(ts@, msg@));
    }
    out
}

/// Relies on chrono: rendering a UTC time as `%Y-%m-%d %H:%M:%S` yields at
/// least the 19 characters `YYYY-MM-DD HH:MM:SS` — digits, `-`, `:` and a
/// space — and in no case a line break.  The value depends on the clock, so
/// nothing more is stated of it.
#[verifier::external_body]
fn current_timestamp() -> (r: String)
    ensures
        no_newline(r@),
        r@.len() >= 19,
{
    let now = std::time::SystemTime::now();
    let datetime: chrono::DateTime<chrono::Utc> = now.into();
    datetime.format("%Y-%m-%d %H:%M:%S").to_string()
}

/// Renders the log line for a completed operation, stamped with the current
/// time: some line-break-free timestamp of at least 19 characters, the
/// separator, the message, and the closing line break.
pub fn log_line_now(msg: &str) -> (r: String)
    ensures
        exists|ts: Seq<char>|
            no_newline(ts) && ts.len() >= 19 && r@ == spec_log_line(ts, msg@),
{
    let ts = current_timestamp();
    let line = format_log_line(ts.as_str(), msg);
    proof {
        assert(no_newline(ts@) && ts@.len() >= 19 && line@ == spec_log_line(ts@, msg@));
    }
    line
}

} // verus!
