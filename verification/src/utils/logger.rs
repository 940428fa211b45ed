//! Log levels (severity ordering, labels, lenient parsing), the layout of
//! a log line, and the file names of a log rotation.
//!
//! Writing the lines, reading the clock and renaming files are done by the
//! program around this library.
use vstd::prelude::*;

use crate::utils::text::{
    ascii_lower, ascii_lowercase, decimal, is_ascii_text, lemma_ascii_lowercase_idempotent, lowercase, push_decimal,
    text_eq, to_lowercase,
};

verus! {

/// Log level severity ordering.
///
/// Messages are written only if their level is at least the configured minimum.
#[derive(Debug, Clone, Copy, PartialEq, Eq, PartialOrd, Ord, Structural)]
pub enum LogLevel {
    /// Verbose debugging information.
    Debug,
    /// General informational messages.
    Info,
    /// Training progress updates.
    Training,
    /// Potential issues.
    Warning,
    /// Errors requiring attention.
    Error,
}

/// The level that a lowercase level name selects; unrecognized names select
/// [`LogLevel::Info`].
pub open spec fn level_named(name: Seq<char>) -> LogLevel {
    if name == "debug"@ {
        LogLevel::Debug
    } else if name == "info"@ {
        LogLevel::Info
    } else if name == "training"@ {
        LogLevel::Training
    } else if name == "warning"@ || name == "warn"@ {
        LogLevel::Warning
    } else if name == "error"@ {
        LogLevel::Error
    } else {
        LogLevel::Info
    }
}

/// Parsing ignores case: an ASCII name selects the same level as its
/// lowercase.
pub proof fn lemma_level_ignores_case(s: Seq<char>)
    requires
        is_ascii_text(s),
    ensures
        is_ascii_text(ascii_lowercase(s)),
        level_named(ascii_lowercase(ascii_lowercase(s))) == level_named(ascii_lowercase(s)),
{
    lemma_ascii_lowercase_idempotent(s);
}

/// The lowercase name of each level, as written in configurations.
pub open spec fn level_name(level: LogLevel) -> Seq<char> {
    match level {
        LogLevel::Debug => "debug"@,
        LogLevel::Info => "info"@,
        LogLevel::Training => "training"@,
        LogLevel::Warning => "warning"@,
        LogLevel::Error => "error"@,
    }
}

/// Each level is selected by its own name, and Warning also by `warn`; a
/// name that selects a level other than the fallback Info is that level's
/// name (or `warn` for Warning). The label written in log lines is the
/// uppercase of the start of the level's name.
pub proof fn lemma_level_names(level: LogLevel, name: Seq<char>)
    ensures
        level_named(level_name(level)) == level,
        level_named("warn"@) == LogLevel::Warning,
        level_named(name) == level && level != LogLevel::Info ==> name == level_name(level) || (
        level == LogLevel::Warning && name == "warn"@),
        level_name(level).take(label_of(level).len() as int) == ascii_lowercase(label_of(level)),
{
    reveal_strlit("debug");
    reveal_strlit("info");
    reveal_strlit("training");
    reveal_strlit("warning");
    reveal_strlit("warn");
    reveal_strlit("error");
    reveal_strlit("DEBUG");
    reveal_strlit("INFO");
    reveal_strlit("TRAIN");
    reveal_strlit("WARN");
    reveal_strlit("ERROR");
    let (d, i, t, w, v, e) = ("debug"@, "info"@, "training"@, "warning"@, "warn"@, "error"@);
    assert(d[0] != i[0] && d[0] != t[0] && d[0] != w[0] && d[0] != v[0] && d[0] != e[0]);
    assert(i[0] != t[0] && i[0] != w[0] && i[0] != v[0] && i[0] != e[0]);
    assert(t[0] != w[0] && t[0] != v[0] && t[0] != e[0]);
    assert(w[0] != e[0] && v[0] != e[0] && w.len() != v.len());
    let label = label_of(level);
    let lower = ascii_lowercase(label);
    assert(level_name(level).take(label.len() as int) =~= lower) by {
        assert forall|k: int| 0 <= k < label.len() implies lower[k] == level_name(level)[k] by {
            assert(lower[k] == ascii_lower(label[k]));
        }
    }
}

/// Severity rank: Debug 0, Info 1, Training 2, Warning 3, Error 4.
pub open spec fn rank(level: LogLevel) -> u8 {
    match level {
        LogLevel::Debug => 0,
        LogLevel::Info => 1,
        LogLevel::Training => 2,
        LogLevel::Warning => 3,
        LogLevel::Error => 4,
    }
}

/// Whether level `a` comes before level `b` in the declared order
/// Debug, Info, Training, Warning, Error.
pub open spec fn declared_before(a: LogLevel, b: LogLevel) -> bool {
    match a {
        LogLevel::Debug => b != LogLevel::Debug,
        LogLevel::Info => b == LogLevel::Training || b == LogLevel::Warning || b == LogLevel::Error,
        LogLevel::Training => b == LogLevel::Warning || b == LogLevel::Error,
        LogLevel::Warning => b == LogLevel::Error,
        LogLevel::Error => false,
    }
}

/// Severity follows the declared order: each level ranks strictly above
/// the ones declared before it, so a message passes a minimum level
/// exactly when its level is that minimum or comes after it. Passing is a
/// total order: any two levels are comparable, two levels that pass each
/// other are the same, and passing is transitive.
pub proof fn lemma_severity_order(a: LogLevel, b: LogLevel, c: LogLevel)
    ensures
        rank(LogLevel::Debug) < rank(LogLevel::Info),
        rank(LogLevel::Info) < rank(LogLevel::Training),
        rank(LogLevel::Training) < rank(LogLevel::Warning),
        rank(LogLevel::Warning) < rank(LogLevel::Error),
        declared_before(a, b) <==> rank(a) < rank(b),
        (rank(a) >= rank(b)) <==> (a == b || declared_before(b, a)),
        rank(a) >= rank(b) || rank(b) >= rank(a),
        rank(a) >= rank(b) && rank(b) >= rank(a) ==> a == b,
        rank(a) >= rank(b) && rank(b) >= rank(c) ==> rank(a) >= rank(c),
{
}

/// The label written in log lines.
pub open spec fn label_of(level: LogLevel) -> Seq<char> {
    match level {
        LogLevel::Debug => "DEBUG"@,
        LogLevel::Info => "INFO"@,
        LogLevel::Training => "TRAIN"@,
        LogLevel::Warning => "WARN"@,
        LogLevel::Error => "ERROR"@,
    }
}

impl LogLevel {
    /// Parses a log level from a string (case-insensitive).
    ///
    /// Defaults to [`LogLevel::Info`] for unrecognized strings.
    pub fn from_str_loose(s: &str) -> (level: Self)
        ensures
            level == level_named(lowercase(s@)),
            is_ascii_text(s@) ==> level == level_named(ascii_lowercase(s@)),
    {
        let lower = to_lowercase(s);
        Self::from_lowercase_name(lower.as_str())
    }

    /// Selects the level of an already lowercased name ("debug", "info",
    /// "training", "warning" or "warn", "error"); any other name selects
    /// [`LogLevel::Info`].
    pub fn from_lowercase_name(name: &str) -> (level: Self)
        ensures
            level == level_named(name@),
            level != LogLevel::Info ==> name@ == level_name(level) || (level == LogLevel::Warning
                && name@ == "warn"@),
    {
        proof {
            lemma_level_names(level_named(name@), name@);
        }
        if text_eq(name, "debug") {
            Self::Debug
        } else if text_eq(name, "info") {
            Self::Info
        } else if text_eq(name, "training") {
            Self::Training
        } else if text_eq(name, "warning") || text_eq(name, "warn") {
            Self::Warning
        } else if text_eq(name, "error") {
            Self::Error
        } else {
            Self::Info
        }
    }

    /// Severity rank of this level, from 0 (Debug) to 4 (Error).
    pub fn severity(self) -> (r: u8)
        ensures
            r == rank(self),
    {
        match self {
            Self::Debug => 0,
            Self::Info => 1,
            Self::Training => 2,
            Self::Warning => 3,
            Self::Error => 4,
        }
    }

    /// Whether a message at this level passes a minimum level of `min_level`.
    pub fn passes(self, min_level: LogLevel) -> (r: bool)
        ensures
            r == (rank(self) >= rank(min_level)),
            r == (self == min_level || declared_before(min_level, self)),
    {
        proof {
            lemma_severity_order(self, min_level, self);
        }
        self.severity() >= min_level.severity()
    }

    /// Returns the label string for this level.
    pub fn label(self) -> (s: &'static str)
        ensures
            s@ == label_of(self),
            level_name(self).take(s@.len() as int) == ascii_lowercase(s@),
    {
        proof {
            lemma_level_names(self, level_name(self));
        }
        match self {
            Self::Debug => "DEBUG",
            Self::Info => "INFO",
            Self::Training => "TRAIN",
            Self::Warning => "WARN",
            Self::Error => "ERROR",
        }
    }
}

/// A log line: `[{timestamp}] [{label}] {message}`.
pub open spec fn log_line(timestamp: Seq<char>, level: LogLevel, message: Seq<char>) -> Seq<char> {
    "["@ + timestamp + "] ["@ + label_of(level) + "] "@ + message
}

/// Formats a log line from its timestamp, level and message.
pub fn format_log_line(timestamp: &str, level: LogLevel, message: &str) -> (r: String)
    ensures
        r@ == log_line(timestamp@, level, message@),
{
    proof {
        reveal_strlit("[");
        reveal_strlit("] [");
        reveal_strlit("] ");
    }
    let mut r = String::new();
    r.append("[");
    r.append(timestamp);
    r.append("] [");
    r.append(level.label());
    r.append("] ");
    r.append(message);
    r
}

/// The name of backup number `i` of the log file `path`: `{path}.{i}`.
pub open spec fn backup_name(path: Seq<char>, i: nat) -> Seq<char> {
    path + "."@ + decimal(i)
}

/// The renames of a rotation keeping `max_backups` backups, in order:
/// backup `i` becomes backup `i + 1` for `i` from `max_backups - 1` down
/// to 1, then the live file becomes backup 1.
pub open spec fn rotation_renames(path: Seq<char>, max_backups: nat) -> Seq<(Seq<char>, Seq<char>)> {
    Seq::new(
        (if max_backups >= 1 { (max_backups - 1) as nat } else { 0nat }),
        |k: int| {
            let i = (max_backups - 1 - k) as nat;
            (backup_name(path, i), backup_name(path, i + 1))
        },
    ).push((path, backup_name(path, 1)))
}

/// The name of backup `i` of the log file `path`.
pub fn backup_file_name(path: &str, i: usize) -> (r: String)
    ensures
        r@ == backup_name(path@, i as nat),
{
    proof {
        reveal_strlit(".");
    }
    let mut r = String::new();
    r.append(path);
    r.append(".");
    push_decimal(&mut r, i as u64);
    r
}

/// The renames (from, to) that rotate the log file `path` while keeping
/// `max_backups` backups (see [`rotation_renames`]). After them, the backup
/// numbered `max_backups + 1` is the excess one to delete.
pub fn rotation_plan(path: &str, max_backups: usize) -> (r: Vec<(String, String)>)
    ensures
        r@.len() == rotation_renames(path@, max_backups as nat).len(),
        forall|j: int|
            0 <= j < r@.len() ==> (#[trigger] r@[j]).0@ == rotation_renames(path@, max_backups as nat)[j].0
                && r@[j].1@ == rotation_renames(path@, max_backups as nat)[j].1,
{
    let ghost plan = rotation_renames(path@, max_backups as nat);
    let mut r: Vec<(String, String)> = Vec::new();
    let mut i: usize = if max_backups >= 1 { max_backups - 1 } else { 0 };
    let ghost n: int = if max_backups >= 1 { max_backups - 1 } else { 0 };
    while i >= 1
        invariant
            0 <= i <= n,
            n == (if max_backups >= 1 { max_backups - 1 } else { 0 }),
            plan == rotation_renames(path@, max_backups as nat),
            r@.len() == n - i,
            forall|j: int|
                0 <= j < r@.len() ==> (#[trigger] r@[j]).0@ == plan[j].0 && r@[j].1@ == plan[j].1,
        decreases i,
    {
        let from = backup_file_name(path, i);
        let to = backup_file_name(path, i + 1);
        r.push((from, to));
        i = i - 1;
    }
    r.push((path.to_string(), backup_file_name(path, 1)));
    r
}

} // verus!
