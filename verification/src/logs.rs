//! Log entries and the rules that classify a raw log line: guessing
//! its severity from the message text and rendering its timestamp.

use vstd::prelude::*;

use crate::clock::{format_unix, unix_time_text};
use crate::text::{
    contains_chars, lower_of, parse_i64_chars, spec_contains, spec_parse_i64, str_chars,
    to_lowercase_string,
};

verus! {

/// One log line as the dashboard holds it: the rendered timestamp,
/// the raw message, the severity guessed from the text, and whether
/// the entry arrived with the latest fetch.
#[derive(Debug, Clone)]
pub struct LogEntry {
    pub timestamp: String,
    pub message: String,
    pub level: String,
    pub is_new: bool,
}

/// The severity label for a message, given the message and its
/// lowercase folding: first the explicit markers (`l=ERROR`,
/// `[ERROR]`, a spaced ` ERROR `, and likewise for the other
/// levels), then a case-insensitive word search, and `INFO` when
/// nothing matches.
pub open spec fn spec_level(msg: Seq<char>, lower: Seq<char>) -> Seq<char> {
    if spec_contains(msg, "l=ERROR"@) || spec_contains(msg, "[ERROR]"@) || spec_contains(
        msg,
        " ERROR "@,
    ) {
        "ERROR"@
    } else if spec_contains(msg, "l=WARN"@) || spec_contains(msg, "[WARN]"@) || spec_contains(
        msg,
        " WARN "@,
    ) {
        "WARN"@
    } else if spec_contains(msg, "l=INFO"@) || spec_contains(msg, "[INFO]"@) || spec_contains(
        msg,
        " INFO "@,
    ) {
        "INFO"@
    } else if spec_contains(msg, "l=DEBUG"@) || spec_contains(msg, "[DEBUG]"@) || spec_contains(
        msg,
        " DEBUG "@,
    ) {
        "DEBUG"@
    } else if spec_contains(lower, "error"@) || spec_contains(lower, "fatal"@) {
        "ERROR"@
    } else if spec_contains(lower, "warn"@) {
        "WARN"@
    } else if spec_contains(lower, "info"@) {
        "INFO"@
    } else if spec_contains(lower, "debug"@) {
        "DEBUG"@
    } else {
        "INFO"@
    }
}

fn contains_lit(hay: &Vec<char>, needle: &str) -> (b: bool)
    ensures
        b == spec_contains(hay@, needle@),
{
    let n = str_chars(needle);
    contains_chars(hay, &n)
}

/// The severity label, computed from the message and a lowercase
/// folding of it handed in by the caller.
pub fn classify_level(msg: &str, lowered: &str) -> (r: String)
    ensures
        r@ == spec_level(msg@, lowered@),
{
    let m = str_chars(msg);
    let l = str_chars(lowered);
    if contains_lit(&m, "l=ERROR") || contains_lit(&m, "[ERROR]") || contains_lit(&m, " ERROR ") {
        String::from_str("ERROR")
    } else if contains_lit(&m, "l=WARN") || contains_lit(&m, "[WARN]") || contains_lit(
        &m,
        " WARN ",
    ) {
        String::from_str("WARN")
    } else if contains_lit(&m, "l=INFO") || contains_lit(&m, "[INFO]") || contains_lit(
        &m,
        " INFO ",
    ) {
        String::from_str("INFO")
    } else if contains_lit(&m, "l=DEBUG") || contains_lit(&m, "[DEBUG]") || contains_lit(
        &m,
        " DEBUG ",
    ) {
        String::from_str("DEBUG")
    } else if contains_lit(&l, "error") || contains_lit(&l, "fatal") {
        String::from_str("ERROR")
    } else if contains_lit(&l, "warn") {
        String::from_str("WARN")
    } else if contains_lit(&l, "info") {
        String::from_str("INFO")
    } else if contains_lit(&l, "debug") {
        String::from_str("DEBUG")
    } else {
        String::from_str("INFO")
    }
}

/// The severity label for a message, folding the case through the
/// standard library.
pub fn extract_log_level(message: &str) -> (r: String)
    ensures
        r@ == spec_level(message@, lower_of(message@)),
{
    let lowered = to_lowercase_string(message);
    classify_level(message, lowered.as_str())
}

/// How many of the first `k` entries are flagged as new.
pub open spec fn spec_count_new(s: Seq<LogEntry>, k: int) -> int
    decreases k,
{
    if k <= 0 {
        0
    } else {
        spec_count_new(s, k - 1) + if s[k - 1].is_new {
            1int
        } else {
            0int
        }
    }
}

/// How many entries of the sequence are flagged as new; the log
/// panel's title shows this count.
pub fn count_new(logs: &Vec<LogEntry>) -> (c: usize)
    ensures
        c == spec_count_new(logs@, logs@.len() as int),
        c <= logs@.len(),
{
    let n = logs.len();
    let mut c: usize = 0;
    let mut i: usize = 0;
    while i < n
        invariant
            i <= n,
            n == logs@.len(),
            c == spec_count_new(logs@, i as int),
            c <= i,
        decreases n - i,
    {
        if logs[i].is_new {
            c = c + 1;
        }
        i = i + 1;
    }
    c
}

/// The timestamp text a raw nanosecond string is shown as: the moment
/// split into whole seconds and the nanosecond remainder.
pub open spec fn spec_formatted_ts(n: int) -> Seq<char> {
    unix_time_text(n / 1_000_000_000, n % 1_000_000_000)
}

/// Renders a raw timestamp: when the text parses as a non-negative
/// nanosecond count since the epoch, the moment rendered as
/// `%Y-%m-%d %H:%M:%S` in UTC; otherwise the text unchanged.
pub fn format_timestamp(ts: &str) -> (r: String)
    ensures
        ({
            let p = spec_parse_i64(ts@);
            match p {
                Some(n) => {
                    if n >= 0 {
                        r@ == spec_formatted_ts(n as int)
                    } else {
                        r@ == ts@
                    }
                },
                None => r@ == ts@,
            }
        }),
{
    let chars = str_chars(ts);
    match parse_i64_chars(&chars) {
        Some(n) => {
            if n >= 0 {
                let nn = n as u64;
                let secs = nn / 1_000_000_000;
                let rem = nn % 1_000_000_000;
                proof {
                    assert(secs == n as int / 1_000_000_000);
                    assert(rem == n as int % 1_000_000_000);
                }
                match format_unix(secs as i64, rem as u32) {
                    Some(t) => t,
                    None => String::from_str(ts),
                }
            } else {
                String::from_str(ts)
            }
        },
        None => String::from_str(ts),
    }
}

} // verus!
