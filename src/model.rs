use vstd::prelude::*;

verus! {

/// One post of a user, as the API reports it.
#[derive(Debug, Clone)]
pub struct Tweet {
    pub id: String,
    pub text: String,
}

/// One user of the API: `name` is the display name, `username` the handle.
#[derive(Debug, Clone)]
pub struct TwitterUser {
    pub id: String,
    pub name: String,
    pub username: String,
}

/// The pagination part of a response envelope. An empty `next_token`
/// marks the last page; absent fields decode as empty strings.
#[derive(Debug, Clone)]
pub struct APIResponseMeta {
    pub result_count: u32,
    pub next_token: String,
    pub oldest_id: String,
    pub newest_id: String,
}

/// One page of a paginated response: its items and its metadata.
#[derive(Debug, Clone)]
pub struct APIResponse<T> {
    pub data: Vec<T>,
    pub meta: APIResponseMeta,
}

impl APIResponseMeta {
    /// Whether this page is the last one.
    pub open spec fn is_last(&self) -> bool {
        self.next_token@.len() == 0
    }
}

/// The settings of a run.
#[derive(Debug, Clone)]
pub struct Config {
    pub log_level: String,
    pub twitter_bearer_token: String,
    pub twitter_list_id: String,
    pub twitter_user_id: String,
}

/// The verbosity that a run logs at.
#[derive(Debug, Clone, Copy, PartialEq, Eq, Structural)]
pub enum LogLevel {
    Trace,
    Debug,
    Info,
    Warn,
    Error,
}

pub open spec fn chars_trace() -> Seq<char> {
    seq!['t', 'r', 'a', 'c', 'e']
}

pub open spec fn chars_debug() -> Seq<char> {
    seq!['d', 'e', 'b', 'u', 'g']
}

pub open spec fn chars_info() -> Seq<char> {
    seq!['i', 'n', 'f', 'o']
}

pub open spec fn chars_warn() -> Seq<char> {
    seq!['w', 'a', 'r', 'n']
}

pub open spec fn chars_error() -> Seq<char> {
    seq!['e', 'r', 'r', 'o', 'r']
}

/// The level that a configured name selects: one of the five names exactly,
/// and `Info` for anything else.
pub open spec fn level_named(s: Seq<char>) -> LogLevel {
    if s == chars_trace() {
        LogLevel::Trace
    } else if s == chars_debug() {
        LogLevel::Debug
    } else if s == chars_info() {
        LogLevel::Info
    } else if s == chars_warn() {
        LogLevel::Warn
    } else if s == chars_error() {
        LogLevel::Error
    } else {
        LogLevel::Info
    }
}

/// Whether `s` holds exactly the characters of `t`.
pub fn same_chars(s: &str, t: &str) -> (r: bool)
    ensures
        r == (s@ == t@),
{
    let n = s.unicode_len();
    let m = t.unicode_len();
    if n != m {
        return false;
    }
    let mut i: usize = 0;
    while i < n
        invariant
            n == s@.len(),
            m == t@.len(),
            n == m,
            i <= n,
            s@.subrange(0, i as int) == t@.subrange(0, i as int),
        decreases n - i,
    {
        if s.get_char(i) != t.get_char(i) {
            return false;
        }
        assert(s@.subrange(0, i + 1) == s@.subrange(0, i as int).push(s@[i as int]));
        assert(t@.subrange(0, i + 1) == t@.subrange(0, i as int).push(t@[i as int]));
        i = i + 1;
    }
    assert(s@ == s@.subrange(0, n as int));
    assert(t@ == t@.subrange(0, n as int));
    true
}

impl LogLevel {
    /// The level that a configured name selects (`"trace"`, `"debug"`,
    /// `"info"`, `"warn"`, `"error"`); any other name selects `Info`.
    pub fn from_name(s: &str) -> (r: LogLevel)
        ensures
            r == level_named(s@),
    {
        proof {
            reveal_strlit("trace");
            reveal_strlit("debug");
            reveal_strlit("info");
            reveal_strlit("warn");
            reveal_strlit("error");
            assert("trace"@ =~= chars_trace());
            assert("debug"@ =~= chars_debug());
            assert("info"@ =~= chars_info());
            assert("warn"@ =~= chars_warn());
            assert("error"@ =~= chars_error());
        }
        if same_chars(s, "trace") {
            LogLevel::Trace
        } else if same_chars(s, "debug") {
            LogLevel::Debug
        } else if same_chars(s, "info") {
            LogLevel::Info
        } else if same_chars(s, "warn") {
            LogLevel::Warn
        } else if same_chars(s, "error") {
            LogLevel::Error
        } else {
            LogLevel::Info
        }
    }
}

impl Config {
    /// The log level that this configuration selects.
    pub fn level(&self) -> (r: LogLevel)
        ensures
            r == level_named(self.log_level@),
    {
        LogLevel::from_name(self.log_level.as_str())
    }
}

} // verus!
