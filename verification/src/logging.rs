//! What the adapter to the Android log decides: which lines of captured
//! standard output are logged, the filter of the logger, and the line that
//! reports a panic.

use vstd::prelude::*;
use vstd::string::StringExecFns;
use crate::text::{decimal, starts_with, usize_to_string};

verus! {

/// The start of the lines that the OpenGL emulation prints and that are of
/// no use in the log.
pub open spec fn noise_prefix() -> Seq<char> {
    "s_glBindAttribLocation"@
}

/// Whether a line of captured output is left out of the log: a line is, when
/// it starts with `s_glBindAttribLocation`.
pub fn should_ignore_line(buf: &str) -> (ignore: bool)
    ensures
        ignore == noise_prefix().is_prefix_of(buf@),
{
    starts_with(buf, "s_glBindAttribLocation")
}

/// What the reader of captured output does after an attempt to read a line.
pub enum LogAction {
    /// Nothing was there to read: wait a second before the next attempt.
    Wait,
    /// Write the message to the log.
    Log(String),
    /// Go on with the next line.
    Skip,
}

/// A `LogAction` as mathematical values.
pub enum LogActionView {
    Wait,
    Log(Seq<char>),
    Skip,
}

impl View for LogAction {
    type V = LogActionView;

    open spec fn view(&self) -> LogActionView {
        match self {
            LogAction::Wait => LogActionView::Wait,
            LogAction::Log(message) => LogActionView::Log(message@),
            LogAction::Skip => LogActionView::Skip,
        }
    }
}

/// What follows an attempt to read a line: `read` is the number of bytes
/// read or the text of the failure, `line` the line where one was read. No
/// bytes read means waiting; a line is logged after `STDOUT: ` unless it is
/// one to ignore; a failure is logged after `STDERR: `.
pub open spec fn action_after_read(read: Result<usize, Seq<char>>, line: Seq<char>) -> LogActionView {
    match read {
        Ok(n) => if n == 0 {
            LogActionView::Wait
        } else if noise_prefix().is_prefix_of(line) {
            LogActionView::Skip
        } else {
            LogActionView::Log("STDOUT: "@ + line)
        },
        Err(failure) => LogActionView::Log("STDERR: "@ + failure),
    }
}

/// Decides what the reader of captured output does after an attempt to read
/// a line into `buf`.
pub fn monitor_io_step(read: &Result<usize, String>, buf: &str) -> (action: LogAction)
    ensures
        action@ == action_after_read(
            match *read {
                Ok(n) => Ok(n),
                Err(failure) => Err(failure@),
            },
            buf@,
        ),
{
    match read {
        Ok(n) => {
            if *n == 0 {
                LogAction::Wait
            } else if should_ignore_line(buf) {
                LogAction::Skip
            } else {
                let mut message = String::from_str("STDOUT: ");
                message.append(buf);
                LogAction::Log(message)
            }
        },
        Err(failure) => {
            let mut message = String::from_str("STDERR: ");
            message.append(failure.as_str());
            LogAction::Log(message)
        },
    }
}

/// The filter of the logger: the filter that `RUST_LOG` holds, `error`
/// where it is not set, and debug messages of the adapter itself.
pub open spec fn log_filter_text(rust_log: Option<Seq<char>>) -> Seq<char> {
    (match rust_log {
        Some(filter) => filter,
        None => "error"@,
    }) + ",rsdroid::logging=debug"@
}

/// The filter of the logger, of what the variable `RUST_LOG` holds.
pub fn log_filter(rust_log: Option<&str>) -> (filter: String)
    ensures
        filter@ == log_filter_text(
            match rust_log {
                Some(f) => Some(f@),
                None => None,
            },
        ),
{
    let mut filter = match rust_log {
        Some(f) => String::from_str(f),
        None => String::from_str("error"),
    };
    filter.append(",rsdroid::logging=debug");
    filter
}

/// The line that reports a panic: where it happened, as file and line, and
/// the message of the panic, each replaced by a fixed text where it is not
/// known.
pub open spec fn panic_line_text(
    location: Option<(Seq<char>, u32)>,
    payload: Option<Seq<char>>,
) -> Seq<char> {
    "Panic at "@ + (match location {
        Some((file, line)) => file + ":"@ + decimal(line as nat),
        None => "unknown location"@,
    }) + ": "@ + (match payload {
        Some(message) => message,
        None => "Unknown panic payload"@,
    })
}

/// The line that reports a panic, of its location and its message.
pub fn panic_line(location: Option<(&str, u32)>, payload: Option<&str>) -> (report: String)
    ensures
        report@ == panic_line_text(
            match location {
                Some((file, line)) => Some((file@, line)),
                None => None,
            },
            match payload {
                Some(message) => Some(message@),
                None => None,
            },
        ),
{
    let mut report = String::from_str("Panic at ");
    match location {
        Some((file, line)) => {
            report.append(file);
            report.append(":");
            report.append(usize_to_string(line as usize).as_str());
        },
        None => {
            report.append("unknown location");
        },
    }
    report.append(": ");
    match payload {
        Some(message) => {
            report.append(message);
        },
        None => {
            report.append("Unknown panic payload");
        },
    }
    report
}

} // verus!
