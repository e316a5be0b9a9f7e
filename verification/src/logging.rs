//! The log: what a line looks like, and how the log is kept from growing
//! without bound.

use std::collections::VecDeque;
use vstd::prelude::*;

verus! {

/// The number of lines that the log keeps; older lines are dropped.
pub const MAX_LOG_LINES: usize = 10_000;

/// How grave a log entry is.
#[derive(Clone, Copy, Debug, PartialEq, Eq)]
pub enum LogLevel {
    Info,
    Error,
}

/// One entry for the log: its level and its text.
#[derive(Debug, PartialEq, Eq)]
pub struct LogEntry {
    pub level: LogLevel,
    pub text: String,
}

/// A log entry as a mathematical value.
pub struct LogEntryView {
    pub level: LogLevel,
    pub text: Seq<char>,
}

impl View for LogEntry {
    type V = LogEntryView;

    open spec fn view(&self) -> LogEntryView {
        LogEntryView { level: self.level, text: self.text@ }
    }
}

/// The entries of a vector as mathematical values.
pub open spec fn entry_views(entries: Seq<LogEntry>) -> Seq<LogEntryView> {
    entries.map_values(|e: LogEntry| e@)
}

/// The name of a level in a log line.
pub open spec fn level_name(level: LogLevel) -> Seq<char> {
    match level {
        LogLevel::Info => "INFO"@,
        LogLevel::Error => "ERROR"@,
    }
}

/// A log line: the time and the level in square brackets, then the message.
pub open spec fn log_line(timestamp: Seq<char>, level: Seq<char>, message: Seq<char>) -> Seq<char> {
    "["@ + timestamp + "] ["@ + level + "] "@ + message
}

/// The lines of a log as mathematical values.
pub open spec fn line_views(lines: Seq<String>) -> Seq<Seq<char>> {
    lines.map_values(|l: String| l@)
}

/// The newest `max` lines of a log, or all of them where there are no more.
pub open spec fn newest(lines: Seq<Seq<char>>, max: int) -> Seq<Seq<char>> {
    if lines.len() > max && max >= 0 {
        lines.subrange(lines.len() - max, lines.len() as int)
    } else {
        lines
    }
}

/// The log after one more line: the line stands at the end, and of the whole
/// the newest `MAX_LOG_LINES` lines are kept.
pub open spec fn appended(lines: Seq<Seq<char>>, line: Seq<char>) -> Seq<Seq<char>> {
    newest(lines.push(line), MAX_LOG_LINES as int)
}

/// `chrono::Local::now`, printed by `DateTime::format` with the pattern
/// `%Y-%m-%d %H:%M:%S`. The text is the local time of the call: it depends on
/// the clock and on the time zone of the machine, so nothing is said of it.
#[verifier::external_body]
fn local_timestamp() -> (text: String) {
    chrono::Local::now().format("%Y-%m-%d %H:%M:%S").to_string()
}

/// The name of a level in a log line.
pub fn level_text(level: LogLevel) -> (name: &'static str)
    ensures
        name@ == level_name(level),
{
    match level {
        LogLevel::Info => "INFO",
        LogLevel::Error => "ERROR",
    }
}

/// Makes a log line.
pub fn format_log_line(timestamp: &str, level: &str, message: &str) -> (line: String)
    ensures
        line@ == log_line(timestamp@, level@, message@),
{
    let mut line = "[".to_owned();
    line.append(timestamp);
    line.append("] [");
    line.append(level);
    line.append("] ");
    line.append(message);
    line
}

/// Drops the oldest lines of a log until no more than `max` are left.
pub fn keep_newest(lines: &mut VecDeque<String>, max: usize)
    ensures
        line_views(final(lines)@) == newest(line_views(old(lines)@), max as int),
{
    let ghost all = line_views(lines@);
    while lines.len() > max
        invariant
            all == line_views(old(lines)@),
            lines@.len() <= all.len(),
            lines@.len() == all.len() || lines@.len() >= max,
            line_views(lines@) == all.subrange(all.len() - lines@.len(), all.len() as int),
        decreases lines@.len(),
    {
        let ghost before = lines@;
        let dropped = lines.pop_front();
        assert(line_views(lines@) =~= line_views(before).subrange(1, before.len() as int));
        assert(line_views(lines@) =~= all.subrange(all.len() - lines@.len(), all.len() as int));
    }
    assert(all.subrange(0, all.len() as int) =~= all);
}

/// Appends a line to a log and keeps the newest `MAX_LOG_LINES` lines.
pub fn append_line(lines: VecDeque<String>, line: String) -> (out: VecDeque<String>)
    ensures
        line_views(out@) == appended(line_views(lines@), line@),
{
    let mut out = lines;
    out.push_back(line);
    assert(line_views(out@) =~= line_views(lines@).push(line@));
    keep_newest(&mut out, MAX_LOG_LINES);
    out
}

/// The log after a message of the level named `level` is recorded at the
/// time of the call: a line for it stands at the end, the oldest lines are
/// dropped, and all lines that are kept are as they were.
pub fn log_to_file(lines: VecDeque<String>, level: &str, message: &str) -> (out: VecDeque<String>)
    ensures
        exists|timestamp: Seq<char>|
            line_views(out@) == appended(
                line_views(lines@),
                #[trigger] log_line(timestamp, level@, message@),
            ),
{
    let timestamp = local_timestamp();
    let line = format_log_line(timestamp.as_str(), level, message);
    assert(line@ == log_line(timestamp@, level@, message@));
    append_line(lines, line)
}

/// The log after a message of level `Info` is recorded.
pub fn log_info(lines: VecDeque<String>, message: &str) -> (out: VecDeque<String>)
    ensures
        exists|timestamp: Seq<char>|
            line_views(out@) == appended(
                line_views(lines@),
                #[trigger] log_line(timestamp, level_name(LogLevel::Info), message@),
            ),
{
    log_to_file(lines, level_text(LogLevel::Info), message)
}

/// The log after a message of level `Error` is recorded.
pub fn log_error(lines: VecDeque<String>, message: &str) -> (out: VecDeque<String>)
    ensures
        exists|timestamp: Seq<char>|
            line_views(out@) == appended(
                line_views(lines@),
                #[trigger] log_line(timestamp, level_name(LogLevel::Error), message@),
            ),
{
    log_to_file(lines, level_text(LogLevel::Error), message)
}

/// The log after an entry is recorded.
pub fn record(lines: VecDeque<String>, entry: &LogEntry) -> (out: VecDeque<String>)
    ensures
        exists|timestamp: Seq<char>|
            line_views(out@) == appended(
                line_views(lines@),
                #[trigger] log_line(timestamp, level_name(entry@.level), entry@.text),
            ),
{
    let out = log_to_file(lines, level_text(entry.level), entry.text.as_str());
    proof {
        let timestamp = choose|timestamp: Seq<char>|
            line_views(out@) == appended(
                line_views(lines@),
                #[trigger] log_line(timestamp, level_name(entry.level), entry.text@),
            );
        assert(line_views(out@) == appended(
            line_views(lines@),
            log_line(timestamp, level_name(entry@.level), entry@.text),
        ));
    }
    out
}

/// The words that open the notice of a log that could not be written.
pub open spec fn write_failure() -> Seq<char> {
    "Failed to write to log file: "@
}

/// The notice, for the error stream, of a log that could not be written at
/// the time `timestamp`.
pub fn failure_notice_at(timestamp: &str, error: &str) -> (notice: String)
    ensures
        notice@ == log_line(timestamp@, "LOG-ERROR"@, write_failure() + error@),
{
    let mut message = "Failed to write to log file: ".to_owned();
    message.append(error);
    format_log_line(timestamp, "LOG-ERROR", message.as_str())
}

/// The notice, for the error stream, of a log that could not be written now.
pub fn failure_notice(error: &str) -> (notice: String)
    ensures
        exists|timestamp: Seq<char>|
            notice@ == #[trigger] log_line(timestamp, "LOG-ERROR"@, write_failure() + error@),
{
    let timestamp = local_timestamp();
    let notice = failure_notice_at(timestamp.as_str(), error);
    assert(notice@ == log_line(timestamp@, "LOG-ERROR"@, write_failure() + error@));
    notice
}

/// The lines of a log never number more than `MAX_LOG_LINES` after a line was
/// appended, and the appended line is the last of them.
pub proof fn lemma_appended_bounded(lines: Seq<Seq<char>>, line: Seq<char>)
    ensures
        appended(lines, line).len() <= MAX_LOG_LINES,
        appended(lines, line).len() >= 1,
        appended(lines, line).last() == line,
        appended(lines, line).len() == if lines.len() < MAX_LOG_LINES {
            lines.len() + 1
        } else {
            MAX_LOG_LINES as nat
        },
{
}

/// The lines that are kept after a line was appended are the newest of the
/// old lines, in their order.
pub proof fn lemma_appended_keeps_order(lines: Seq<Seq<char>>, line: Seq<char>, i: int)
    requires
        0 <= i < appended(lines, line).len() - 1,
    ensures
        appended(lines, line)[i] == lines[lines.len() + 1 - appended(lines, line).len() + i],
{
}

} // verus!
