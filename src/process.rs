use vstd::prelude::*;

use crate::log_entries::{LogEntries, LogLevel, LogType};
use crate::text::{signed_decimal, signed_decimal_string};

verus! {

/// Which output pipe of the flashing tool a line came from.
#[derive(Clone, Copy, Debug, PartialEq, Eq, Structural)]
pub enum OutputStream {
    Stdout,
    Stderr,
}

/// Severity given to the lines of each output pipe.
#[derive(Clone, Copy, Debug, PartialEq, Eq, Structural)]
pub struct OutputTagging {
    pub stdout_level: LogLevel,
    pub stderr_level: LogLevel,
}

impl OutputTagging {
    /// The tool writes its progress to standard error, so those lines are
    /// information, and what reaches standard output is shown as an error.
    pub fn tool_default() -> (r: OutputTagging)
        ensures
            r.stdout_level == LogLevel::Error,
            r.stderr_level == LogLevel::Info,
    {
        OutputTagging { stdout_level: LogLevel::Error, stderr_level: LogLevel::Info }
    }

    pub open spec fn level_of(&self, stream: OutputStream) -> LogLevel {
        match stream {
            OutputStream::Stdout => self.stdout_level,
            OutputStream::Stderr => self.stderr_level,
        }
    }
}

/// Builds a log line of the given severity.
pub fn make_log(level: LogLevel, text: String) -> (r: LogType)
    ensures
        r.is(level, text@),
{
    match level {
        LogLevel::InfoNoPrefix => LogType::InfoNoPrefix(text),
        LogLevel::Info => LogType::Info(text),
        LogLevel::Warning => LogType::Warning(text),
        LogLevel::Error => LogType::Error(text),
    }
}

/// The log line for one line of the tool's output: indented by four spaces,
/// tagged by the pipe it came from.
pub fn tag_output_line(tagging: OutputTagging, stream: OutputStream, line: &str) -> (r: LogType)
    ensures
        r.is(tagging.level_of(stream), "    "@ + line@),
{
    let text = String::from_str("    ").concat(line);
    let level = match stream {
        OutputStream::Stdout => tagging.stdout_level,
        OutputStream::Stderr => tagging.stderr_level,
    };
    make_log(level, text)
}

/// The code shown for a run: its exit code, or the smallest `i32` when a
/// signal ended it.
pub open spec fn shown_code(code: Option<i32>) -> i32 {
    match code {
        Some(c) => c,
        None => i32::MIN,
    }
}

pub open spec fn exit_summary_text(code: Option<i32>) -> Seq<char> {
    "Exit code: "@ + signed_decimal(shown_code(code) as int)
}

/// The warning line that closes the log of a run.
pub fn exit_summary(code: Option<i32>) -> (r: LogType)
    ensures
        r.is(LogLevel::Warning, exit_summary_text(code)),
{
    let shown = match code {
        Some(c) => c,
        None => i32::MIN,
    };
    LogType::Warning(String::from_str("Exit code: ").concat(signed_decimal_string(shown).as_str()))
}

/// Outcome of one run of the flashing tool: its exit code (`None` when a
/// signal ended it) and what it printed.
#[derive(Debug, Clone)]
pub struct ProcessResult {
    pub code: Option<i32>,
    pub log: LogEntries,
}

impl ProcessResult {
    /// The result of a finished run: the collected lines, then the exit summary.
    pub fn finished(code: Option<i32>, log: LogEntries) -> (r: ProcessResult)
        ensures
            r.code == code,
            r.log@.len() == log@.len() + 1,
            r.log@.subrange(0, log@.len() as int) == log@,
            r.log@.last().is(LogLevel::Warning, exit_summary_text(code)),
    {
        let mut log = log;
        let ghost before = log@;
        log.push(exit_summary(code));
        assert(log@.subrange(0, before.len() as int) =~= before);
        ProcessResult { code, log }
    }

    /// The run ended normally with exit code 0.
    pub fn succeeded(&self) -> (r: bool)
        ensures
            r == (self.code == Some(0i32)),
    {
        match self.code {
            Some(c) => c == 0,
            None => false,
        }
    }
}

} // verus!
