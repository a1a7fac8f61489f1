//! Rules of the transcription history that do not touch the database: which recording
//! file names may be opened.
use vstd::prelude::*;
use crate::unicode::chars_of;

verus! {

/// A drive prefix such as `C:` at the start of a name.
pub open spec fn drive_prefix(n: Seq<char>) -> bool {
    n.len() >= 2 && (('a' <= n[0] && n[0] <= 'z') || ('A' <= n[0] && n[0] <= 'Z')) && n[1] == ':'
}

/// A single plain file name: non-empty, with no separator, no NUL, no drive prefix, and
/// not a `.` or `..` navigation component.
pub open spec fn safe_recording_filename(n: Seq<char>) -> bool {
    &&& n.len() > 0
    &&& !n.contains('/')
    &&& !n.contains('\\')
    &&& !n.contains('\0')
    &&& n != seq!['.']
    &&& n != seq!['.', '.']
    &&& !drive_prefix(n)
}

/// Whether `name` is a single plain file name, so that joining it to the recordings
/// directory can never leave that directory. Recording names are generated by the app;
/// this refuses anything a webview may have supplied that is not.
pub fn is_safe_recording_filename(name: &str) -> (r: bool)
    ensures
        r == safe_recording_filename(name@),
{
    let cs = chars_of(name);
    let n = cs.len();
    if n == 0 {
        return false;
    }
    let mut i: usize = 0;
    while i < n
        invariant
            i <= n == cs@.len(),
            cs@ == name@,
            forall|j: int| 0 <= j < i ==> cs@[j] != '/' && cs@[j] != '\\' && cs@[j] != '\0',
        decreases n - i,
    {
        let c = cs[i];
        if c == '/' || c == '\\' || c == '\0' {
            assert(cs@[i as int] == c);
            return false;
        }
        i += 1;
    }
    if n == 1 && cs[0] == '.' {
        assert(cs@ =~= seq!['.']);
        return false;
    }
    if n == 2 && cs[0] == '.' && cs[1] == '.' {
        assert(cs@ =~= seq!['.', '.']);
        return false;
    }
    if n >= 2 && (('a' <= cs[0] && cs[0] <= 'z') || ('A' <= cs[0] && cs[0] <= 'Z')) && cs[1] == ':' {
        return false;
    }
    proof {
        if cs@.contains('/') {
            let j = choose|j: int| 0 <= j < cs@.len() && cs@[j] == '/';
            assert(cs@[j] != '/');
        }
        if cs@.contains('\\') {
            let j = choose|j: int| 0 <= j < cs@.len() && cs@[j] == '\\';
            assert(cs@[j] != '\\');
        }
        if cs@.contains('\0') {
            let j = choose|j: int| 0 <= j < cs@.len() && cs@[j] == '\0';
            assert(cs@[j] != '\0');
        }
    }
    true
}

/// One saved transcription.
#[derive(Clone, Debug)]
pub struct HistoryEntry {
    pub id: i64,
    pub file_name: String,
    pub timestamp: i64,
    pub saved: bool,
    pub title: String,
    pub transcription_text: String,
    pub post_processed_text: Option<String>,
    pub post_process_prompt: Option<String>,
    pub post_process_requested: bool,
    /// Whether the dictation was emitted as raw text, so a retry reproduces its formatting.
    pub raw_requested: bool,
}

/// One page of history, and whether more follow.
#[derive(Clone, Debug)]
pub struct PaginatedHistory {
    pub entries: Vec<HistoryEntry>,
    pub has_more: bool,
}

/// A change to the history, as the interface is told about it.
#[derive(Clone, Debug)]
pub enum HistoryUpdatePayload {
    Added { entry: HistoryEntry },
    Updated { entry: HistoryEntry },
    Deleted { id: i64 },
    Toggled { id: i64 },
}

/// How long unsaved recordings are kept.
#[derive(Clone, Copy, Debug, PartialEq, Eq, Structural)]
pub enum RecordingRetentionPeriod {
    Never,
    PreserveLimit,
    Days3,
    Weeks2,
    Months3,
}

/// Which unsaved entries a cleanup removes.
#[derive(Clone, Copy, Debug, PartialEq, Eq, Structural)]
pub enum CleanupRule {
    /// Nothing is deleted.
    KeepAll,
    /// All but this many of the newest unsaved entries.
    BeyondCount(usize),
    /// The unsaved entries older than this Unix timestamp (seconds).
    OlderThan(i64),
}

/// Seconds in a day.
pub const SECONDS_PER_DAY: i64 = 24 * 60 * 60;

/// The cleanup a retention setting asks for at time `now`: nothing for `Never`, the
/// count-based limit for `PreserveLimit`, otherwise everything older than three days, two
/// weeks, or three months of thirty days.
pub open spec fn cleanup_rule_spec(period: RecordingRetentionPeriod, history_limit: usize, now: i64) -> CleanupRule {
    match period {
        RecordingRetentionPeriod::Never => CleanupRule::KeepAll,
        RecordingRetentionPeriod::PreserveLimit => CleanupRule::BeyondCount(history_limit),
        RecordingRetentionPeriod::Days3 => CleanupRule::OlderThan((now - 3 * 86400) as i64),
        RecordingRetentionPeriod::Weeks2 => CleanupRule::OlderThan((now - 14 * 86400) as i64),
        RecordingRetentionPeriod::Months3 => CleanupRule::OlderThan((now - 90 * 86400) as i64),
    }
}

/// The cleanup for a retention setting and the history limit, at time `now`.
pub fn cleanup_rule(period: RecordingRetentionPeriod, history_limit: usize, now: i64) -> (r: CleanupRule)
    requires
        now >= i64::MIN + 90 * 86400,
    ensures
        r == cleanup_rule_spec(period, history_limit, now),
{
    match period {
        RecordingRetentionPeriod::Never => CleanupRule::KeepAll,
        RecordingRetentionPeriod::PreserveLimit => CleanupRule::BeyondCount(history_limit),
        RecordingRetentionPeriod::Days3 => CleanupRule::OlderThan(now - 3 * SECONDS_PER_DAY),
        RecordingRetentionPeriod::Weeks2 => CleanupRule::OlderThan(now - 2 * 7 * SECONDS_PER_DAY),
        RecordingRetentionPeriod::Months3 => CleanupRule::OlderThan(now - 3 * 30 * SECONDS_PER_DAY),
    }
}

} // verus!
