//! Log levels: the level of the JSON log file named in the settings, and the
//! event that closes each request's log.

use vstd::prelude::*;

verus! {

/// The levels the log file can be filtered at.
#[derive(Debug, Clone, Copy, PartialEq, Eq, Structural)]
pub enum FileLogLevel {
    Debug,
    Info,
    Warn,
    Error,
}

/// The character code of `c` with ASCII upper-case letters lowered.
pub open spec fn ascii_lower_code(c: char) -> u32 {
    if 'A' <= c && c <= 'Z' { (c as u32 + 32) as u32 } else { c as u32 }
}

/// `a` and `b` are equal ignoring ASCII case.
pub open spec fn eq_ignore_ascii_case(a: Seq<char>, b: Seq<char>) -> bool {
    a.len() == b.len() && forall|i: int| 0 <= i < a.len() ==> ascii_lower_code(#[trigger] a[i]) == ascii_lower_code(b[i])
}

fn lower_code(c: char) -> (r: u32)
    ensures
        r == ascii_lower_code(c),
{
    if 'A' <= c && c <= 'Z' {
        (c as u32) + 32
    } else {
        c as u32
    }
}

/// Whether `a` equals `b` ignoring ASCII case.
pub fn same_ignoring_ascii_case(a: &str, b: &str) -> (r: bool)
    ensures
        r == eq_ignore_ascii_case(a@, b@),
{
    let n = a.unicode_len();
    if n != b.unicode_len() {
        return false;
    }
    let mut i: usize = 0;
    while i < n
        invariant
            n == a@.len(),
            n == b@.len(),
            i <= n,
            forall|j: int| 0 <= j < i ==> ascii_lower_code(#[trigger] a@[j]) == ascii_lower_code(b@[j]),
        decreases n - i,
    {
        if lower_code(a.get_char(i)) != lower_code(b.get_char(i)) {
            return false;
        }
        i = i + 1;
    }
    true
}

/// The file log level a setting names: `DEBUG`, `INFO`, `WARN` or `ERROR`
/// in any ASCII case; anything else is `Info`.
pub open spec fn level_named(level: Seq<char>) -> FileLogLevel {
    if eq_ignore_ascii_case(level, "DEBUG"@) {
        FileLogLevel::Debug
    } else if eq_ignore_ascii_case(level, "INFO"@) {
        FileLogLevel::Info
    } else if eq_ignore_ascii_case(level, "WARN"@) {
        FileLogLevel::Warn
    } else if eq_ignore_ascii_case(level, "ERROR"@) {
        FileLogLevel::Error
    } else {
        FileLogLevel::Info
    }
}

/// The file log level a setting names.
pub fn file_log_level(level: &str) -> (r: FileLogLevel)
    ensures
        r == level_named(level@),
{
    if same_ignoring_ascii_case(level, "DEBUG") {
        FileLogLevel::Debug
    } else if same_ignoring_ascii_case(level, "INFO") {
        FileLogLevel::Info
    } else if same_ignoring_ascii_case(level, "WARN") {
        FileLogLevel::Warn
    } else if same_ignoring_ascii_case(level, "ERROR") {
        FileLogLevel::Error
    } else {
        FileLogLevel::Info
    }
}


/// The level a request's completion is logged at.
#[derive(Debug, Clone, Copy, PartialEq, Eq, Structural)]
pub enum CompletionLevel {
    Warn,
    Info,
}

/// How a request with response status `status` is logged as completed: a
/// server error (5xx) as a warning, a client error (4xx) as rejected, any
/// other status as completed.
pub open spec fn completion_event_of(status: u16) -> (CompletionLevel, Seq<char>) {
    if 500 <= status < 600 {
        (CompletionLevel::Warn, "request completed with server error"@)
    } else if 400 <= status < 500 {
        (CompletionLevel::Info, "request rejected"@)
    } else {
        (CompletionLevel::Info, "request completed"@)
    }
}

/// The level and message a request's completion is logged with.
pub fn completion_event(status: u16) -> (r: (CompletionLevel, &'static str))
    ensures
        r.0 == completion_event_of(status).0,
        r.1@ == completion_event_of(status).1,
{
    if 500 <= status && status < 600 {
        (CompletionLevel::Warn, "request completed with server error")
    } else if 400 <= status && status < 500 {
        (CompletionLevel::Info, "request rejected")
    } else {
        (CompletionLevel::Info, "request completed")
    }
}

} // verus!
