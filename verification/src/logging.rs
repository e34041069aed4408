//! Log lines, log file names and the per-file line buffers that a background
//! writer drains.
use vstd::prelude::*;
use std::collections::VecDeque;
use crate::text::{
    append_decimal_padded, contains, dec_chars, ends_with, owned, pad_zeros, seq_contains,
    seq_ends_with, seq_starts_with, starts_with, str_eq,
};

verus! {

/// Log directory under the local application-data folder.
pub const LOG_DIR_NAME: &'static str = "AkiSpace\\logs";
/// Logs older than this many days are deleted.
pub const PRUNE_DAYS: u64 = 14;
/// Flush period of the background writer.
pub const FLUSH_INTERVAL_MS: u64 = 100;
/// Lines kept per log file between flushes; older ones are dropped first.
pub const MAX_BUFFER_LINES: usize = 1000;
/// Number of log files (and buffers).
pub const LOG_FILE_COUNT: usize = 3;

#[derive(Debug, Clone, Copy, PartialEq, Eq, Structural)]
pub enum LogLevel {
    Trace,
    Debug,
    Info,
    Warn,
    Error,
}

pub open spec fn spec_level_name(l: LogLevel) -> Seq<char> {
    match l {
        LogLevel::Trace => "TRACE"@,
        LogLevel::Debug => "DEBUG"@,
        LogLevel::Info => "INFO"@,
        LogLevel::Warn => "WARN"@,
        LogLevel::Error => "ERROR"@,
    }
}

/// The name a level is printed with.
pub fn level_name(l: LogLevel) -> (s: &'static str)
    ensures
        s@ == spec_level_name(l),
{
    match l {
        LogLevel::Trace => "TRACE",
        LogLevel::Debug => "DEBUG",
        LogLevel::Info => "INFO",
        LogLevel::Warn => "WARN",
        LogLevel::Error => "ERROR",
    }
}

pub open spec fn spec_log_prefix(i: int) -> Seq<char> {
    if i == 0 {
        "akispace"@
    } else if i == 1 {
        "akispace-fixenv"@
    } else {
        "akispace-agent"@
    }
}

/// The file-name prefix of log file `i`: the app, the fix-env run, the agent.
pub fn log_prefix(i: usize) -> (s: &'static str)
    requires
        i < LOG_FILE_COUNT,
    ensures
        s@ == spec_log_prefix(i as int),
{
    if i == 0 {
        "akispace"
    } else if i == 1 {
        "akispace-fixenv"
    } else {
        "akispace-agent"
    }
}

/// The log file a prefix writes to: the fix-env or agent file for their
/// prefixes, the app's file for its own prefix and for any unknown one.
pub open spec fn spec_prefix_index(prefix: Seq<char>) -> int {
    if prefix == spec_log_prefix(1) {
        1
    } else if prefix == spec_log_prefix(2) {
        2
    } else {
        0
    }
}

/// Routing a prefix to its file undoes naming the file: the prefix of log
/// file `i` is routed back to file `i` for each of the three files (the
/// app's "akispace", the fix-env run's "akispace-fixenv", the agent's
/// "akispace-agent"), the three prefixes differ, and any other prefix goes
/// to the app's file.
pub proof fn lemma_prefix_routes_to_its_file(i: int, prefix: Seq<char>)
    ensures
        0 <= i < LOG_FILE_COUNT ==> spec_prefix_index(spec_log_prefix(i)) == i,
        0 <= spec_prefix_index(prefix) < LOG_FILE_COUNT,
        (forall|j: int| 0 <= j < LOG_FILE_COUNT ==> prefix != #[trigger] spec_log_prefix(j))
            ==> spec_prefix_index(prefix) == 0,
        spec_prefix_index("akispace-fixenv"@) == 1,
        spec_prefix_index("akispace-agent"@) == 2,
        spec_prefix_index("akispace"@) == 0,
{
    reveal_strlit("akispace");
    reveal_strlit("akispace-fixenv");
    reveal_strlit("akispace-agent");
    assert(spec_log_prefix(0).len() != spec_log_prefix(1).len());
    assert(spec_log_prefix(0).len() != spec_log_prefix(2).len());
    assert(spec_log_prefix(1).len() != spec_log_prefix(2).len());
    if !(forall|j: int| 0 <= j < LOG_FILE_COUNT ==> prefix != #[trigger] spec_log_prefix(j)) {
    } else {
        assert(prefix != spec_log_prefix(1));
        assert(prefix != spec_log_prefix(2));
    }
}

/// The log file a prefix writes to; an unknown prefix goes to the app's file.
pub fn prefix_index(prefix: &str) -> (i: usize)
    ensures
        i == spec_prefix_index(prefix@),
        i < LOG_FILE_COUNT,
        forall|j: int| 0 <= j < LOG_FILE_COUNT && prefix@ == spec_log_prefix(j) ==> i == j,
{
    proof {
        reveal_strlit("akispace");
        reveal_strlit("akispace-fixenv");
        reveal_strlit("akispace-agent");
        assert(spec_log_prefix(0).len() != spec_log_prefix(1).len());
        assert(spec_log_prefix(0).len() != spec_log_prefix(2).len());
        assert(spec_log_prefix(1).len() != spec_log_prefix(2).len());
    }
    let mut i: usize = 0;
    while i < LOG_FILE_COUNT
        invariant
            i <= LOG_FILE_COUNT,
            forall|j: int| 0 <= j < i ==> prefix@ != spec_log_prefix(j),
            spec_log_prefix(0) != spec_log_prefix(1),
            spec_log_prefix(0) != spec_log_prefix(2),
            spec_log_prefix(1) != spec_log_prefix(2),
        decreases LOG_FILE_COUNT - i,
    {
        let p = log_prefix(i);
        if str_eq(prefix, p) {
            return i;
        }
        i = i + 1;
    }
    0
}

/// `HH:MM:SS.mmm` of the UTC time of day.
pub open spec fn spec_time_str(secs: nat, millis: nat) -> Seq<char> {
    let day = secs % 86400;
    pad_zeros(dec_chars(day / 3600), 2) + ":"@ + pad_zeros(dec_chars((day % 3600) / 60), 2) + ":"@
        + pad_zeros(dec_chars(day % 60), 2) + "."@ + pad_zeros(dec_chars(millis), 3)
}

/// The time stamp of a log line, from seconds since the Unix epoch and the
/// milliseconds within that second.
pub fn format_time(secs_since_epoch: u64, millis: u32) -> (s: String)
    ensures
        s@ == spec_time_str(secs_since_epoch as nat, millis as nat),
{
    let day = secs_since_epoch % 86400;
    let mut s = String::new();
    append_decimal_padded(&mut s, day / 3600, 2);
    s.append(":");
    append_decimal_padded(&mut s, (day % 3600) / 60, 2);
    s.append(":");
    append_decimal_padded(&mut s, day % 60, 2);
    s.append(".");
    append_decimal_padded(&mut s, millis as u64, 3);
    proof {
        reveal_strlit(":");
        reveal_strlit(".");
    }
    assert(s@ =~= spec_time_str(secs_since_epoch as nat, millis as nat));
    s
}

/// The date part of a log file name: the year, month and day as this log
/// scheme approximates them (365-day years, 30-day months), as `YYYYMMDD`.
pub open spec fn spec_date_str(secs: nat) -> Seq<char> {
    let days = secs / 86400;
    pad_zeros(dec_chars(1970 + days / 365), 4) + pad_zeros(dec_chars((days % 365) / 30 + 1), 2)
        + pad_zeros(dec_chars(days % 30 + 1), 2)
}

pub fn format_date(secs_since_epoch: u64) -> (s: String)
    ensures
        s@ == spec_date_str(secs_since_epoch as nat),
{
    let days = secs_since_epoch / 86400;
    let mut s = String::new();
    append_decimal_padded(&mut s, 1970 + days / 365, 4);
    append_decimal_padded(&mut s, (days % 365) / 30 + 1, 2);
    append_decimal_padded(&mut s, days % 30 + 1, 2);
    assert(s@ =~= spec_date_str(secs_since_epoch as nat));
    s
}

/// `{prefix}-{date}.log`.
pub fn log_file_name(prefix: &str, date: &str) -> (s: String)
    ensures
        s@ == prefix@ + "-"@ + date@ + ".log"@,
{
    let mut s = owned(prefix);
    s.append("-");
    s.append(date);
    s.append(".log");
    s
}

/// `{time} [{LEVEL}] {category}: {message}`.
pub fn format_log_line(time: &str, level: LogLevel, category: &str, message: &str) -> (s: String)
    ensures
        s@ == time@ + " ["@ + spec_level_name(level) + "] "@ + category@ + ": "@ + message@,
{
    let mut s = owned(time);
    s.append(" [");
    s.append(level_name(level));
    s.append("] ");
    s.append(category);
    s.append(": ");
    s.append(message);
    s
}

/// The log file an event of `target` goes to.
pub fn route_category(target: &str) -> (p: &'static str)
    ensures
        p@ == if seq_contains(target@, "fixenv"@) {
            "akispace-fixenv"@
        } else if seq_contains(target@, "agent"@) {
            "akispace-agent"@
        } else {
            "akispace"@
        },
{
    if contains(target, "fixenv") {
        "akispace-fixenv"
    } else if contains(target, "agent") {
        "akispace-agent"
    } else {
        "akispace"
    }
}

/// A log file the pruner looks at: named after `prefix` and ending in `.log`.
pub fn is_prunable_log_name(name: &str, prefix: &str) -> (r: bool)
    ensures
        r == (seq_starts_with(name@, prefix@) && seq_ends_with(name@, ".log"@)),
{
    starts_with(name, prefix) && ends_with(name, ".log")
}

/// A log modified before the 14-day cut-off is deleted.
pub fn prune_due(modified_secs: u64, now_secs: u64) -> (r: bool)
    requires
        now_secs >= PRUNE_DAYS * 86400,
    ensures
        r == (modified_secs < now_secs - PRUNE_DAYS * 86400),
{
    modified_secs < now_secs - PRUNE_DAYS * 86400
}

/// Turns tracing events into log lines for the right file.
pub struct LogLayer;

impl LogLayer {
    /// The log file prefix for events of `target`.
    pub fn prefix_for(&self, target: &str) -> (p: &'static str)
        ensures
            p@ == if seq_contains(target@, "fixenv"@) {
                "akispace-fixenv"@
            } else if seq_contains(target@, "agent"@) {
                "akispace-agent"@
            } else {
                "akispace"@
            },
    {
        route_category(target)
    }
}

/// Lines waiting to be written, one buffer per log file.
pub struct LogBuffers {
    app: VecDeque<String>,
    fixenv: VecDeque<String>,
    agent: VecDeque<String>,
}

/// A buffer after `line` is added: the oldest line goes once 1000 are held.
pub open spec fn buffer_after(old: Seq<String>, line: String) -> Seq<String> {
    if old.len() >= MAX_BUFFER_LINES {
        old.drop_first().push(line)
    } else {
        old.push(line)
    }
}

impl LogBuffers {
    pub closed spec fn buffer(&self, i: int) -> Seq<String> {
        if i == 0 {
            self.app@
        } else if i == 1 {
            self.fixenv@
        } else {
            self.agent@
        }
    }

    /// No buffer holds more than 1000 lines.
    pub closed spec fn wf(&self) -> bool {
        &&& self.app@.len() <= MAX_BUFFER_LINES
        &&& self.fixenv@.len() <= MAX_BUFFER_LINES
        &&& self.agent@.len() <= MAX_BUFFER_LINES
    }

    pub fn new() -> (b: Self)
        ensures
            b.wf(),
            forall|i: int| 0 <= i < 3 ==> b.buffer(i).len() == 0,
    {
        LogBuffers { app: VecDeque::new(), fixenv: VecDeque::new(), agent: VecDeque::new() }
    }

    fn push_bounded(buf: &mut VecDeque<String>, line: String)
        requires
            old(buf)@.len() <= MAX_BUFFER_LINES,
        ensures
            final(buf)@ == buffer_after(old(buf)@, line),
            final(buf)@.len() <= MAX_BUFFER_LINES,
    {
        if buf.len() >= MAX_BUFFER_LINES {
            let _ = buf.pop_front();
        }
        buf.push_back(line);
        assert(final(buf)@ =~= buffer_after(old(buf)@, line));
    }

    /// Empties `buf` into a list, oldest line first.
    fn drain_all(buf: &mut VecDeque<String>) -> (lines: Vec<String>)
        ensures
            lines@ == old(buf)@,
            final(buf)@.len() == 0,
    {
        let ghost start = buf@;
        let mut lines: Vec<String> = Vec::new();
        while buf.len() > 0
            invariant
                lines@ + buf@ == start,
            decreases buf@.len(),
        {
            let ghost before = buf@;
            match buf.pop_front() {
                Some(line) => {
                    proof {
                        assert(lines@.push(line) + buf@ =~= lines@ + before);
                    }
                    lines.push(line);
                },
                None => {},
            }
        }
        assert(lines@ + buf@ =~= lines@);
        lines
    }

    /// Queues a line for log file `idx`.
    pub fn write_line(&mut self, idx: usize, line: String)
        requires
            old(self).wf(),
            idx < LOG_FILE_COUNT,
        ensures
            final(self).wf(),
            final(self).buffer(idx as int) == buffer_after(old(self).buffer(idx as int), line),
            forall|j: int| 0 <= j < 3 && j != idx ==> final(self).buffer(j) == old(self).buffer(j),
    {
        if idx == 0 {
            Self::push_bounded(&mut self.app, line);
        } else if idx == 1 {
            Self::push_bounded(&mut self.fixenv, line);
        } else {
            Self::push_bounded(&mut self.agent, line);
        }
    }

    /// Takes the queued lines of log file `idx`, oldest first, leaving its buffer empty.
    pub fn take_lines(&mut self, idx: usize) -> (lines: Vec<String>)
        requires
            old(self).wf(),
            idx < LOG_FILE_COUNT,
        ensures
            final(self).wf(),
            lines@ == old(self).buffer(idx as int),
            final(self).buffer(idx as int).len() == 0,
            forall|j: int| 0 <= j < 3 && j != idx ==> final(self).buffer(j) == old(self).buffer(j),
    {
        if idx == 0 {
            Self::drain_all(&mut self.app)
        } else if idx == 1 {
            Self::drain_all(&mut self.fixenv)
        } else {
            Self::drain_all(&mut self.agent)
        }
    }
}

/// Queues a log line for the file named by `prefix`, stamped with `time`.
pub fn log_to(
    buffers: &mut LogBuffers,
    time: &str,
    prefix: &str,
    level: LogLevel,
    category: &str,
    message: &str,
)
    requires
        old(buffers).wf(),
    ensures
        final(buffers).wf(),
        queued_line(
            *old(buffers),
            *final(buffers),
            spec_prefix_index(prefix@),
            time@ + " ["@ + spec_level_name(level) + "] "@ + category@ + ": "@ + message@,
        ),
{
    let idx = prefix_index(prefix);
    let line = format_log_line(time, level, category, message);
    let ghost before = buffers.buffer(idx as int);
    buffers.write_line(idx, line);
    proof {
        lemma_buffer_after_last(before, line);
    }
}

/// Queues a log line followed by the text of an exception on the next line.
pub fn log_exception(
    buffers: &mut LogBuffers,
    time: &str,
    prefix: &str,
    level: LogLevel,
    category: &str,
    message: &str,
    exception: &str,
)
    requires
        old(buffers).wf(),
    ensures
        final(buffers).wf(),
        queued_line(
            *old(buffers),
            *final(buffers),
            spec_prefix_index(prefix@),
            time@ + " ["@ + spec_level_name(level) + "] "@ + category@ + ": "@ + message@ + "\n"@
                + exception@,
        ),
{
    let idx = prefix_index(prefix);
    let mut line = format_log_line(time, level, category, message);
    line.append("\n");
    line.append(exception);
    let ghost before = buffers.buffer(idx as int);
    buffers.write_line(idx, line);
    proof {
        lemma_buffer_after_last(before, line);
    }
}

proof fn lemma_buffer_after_last(b: Seq<String>, line: String)
    ensures
        buffer_after(b, line).len() >= 1,
        buffer_after(b, line).last() == line,
        buffer_after(b, line).drop_last() == if b.len() >= MAX_BUFFER_LINES {
            b.drop_first()
        } else {
            b
        },
{
    if b.len() >= MAX_BUFFER_LINES {
        assert(b.drop_first().push(line).drop_last() =~= b.drop_first());
    } else {
        assert(b.push(line).drop_last() =~= b);
    }
}

/// `after` is `before` with `text` queued as the newest line of buffer `idx`
/// (the oldest line of that buffer dropped once it held 1000), and every
/// other buffer untouched.
pub open spec fn queued_line(before: LogBuffers, after: LogBuffers, idx: int, text: Seq<char>) -> bool {
    let b = before.buffer(idx);
    let a = after.buffer(idx);
    &&& a.len() >= 1
    &&& a.last()@ == text
    &&& a.drop_last() == if b.len() >= MAX_BUFFER_LINES {
        b.drop_first()
    } else {
        b
    }
    &&& forall|j: int| 0 <= j < 3 && j != idx ==> after.buffer(j) == before.buffer(j)
}

} // verus!
