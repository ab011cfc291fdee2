use vstd::prelude::*;

use crate::loader::{lossy_utf8, run_file};
use crate::pipeline::{ErrorKind, ScriptedSink};
use crate::session::{dispatched_lines, run_session, session_outcome, ReadEvent};

verus! {

/// Exit status of a successful run.
pub const EXIT_OK: u8 = 0;

/// Exit status of a malformed invocation: an unsupported argument count.
pub const EXIT_USAGE: u8 = 64;

/// Exit status of a data error: an unreadable input file or a reported
/// pipeline failure.
pub const EXIT_DATA_ERROR: u8 = 65;

/// The usage line written to the error stream on a malformed invocation.
pub open spec fn usage_text() -> Seq<char> {
    "Usage: rslox [script]"@
}

/// What the process does, decided from the invocation arguments alone.
#[derive(Debug, PartialEq, Eq)]
pub enum Directive {
    /// No arguments: run an interactive session.
    StartInteractive,
    /// One argument: execute the named file.
    LoadFile(String),
    /// Two or more arguments: write this message to the error stream and
    /// exit with `EXIT_USAGE`.
    ReportUsage(String),
}

/// Selects exactly one of the three modes from the argument list (the
/// argument vector without the program name), whatever the arguments hold:
/// none starts an interactive session, one names the file to execute, and
/// any more are a usage error.
pub fn dispatch(args: &Vec<String>) -> (d: Directive)
    ensures
        args@.len() == 0 ==> d == Directive::StartInteractive,
        args@.len() == 1 ==> d == Directive::LoadFile(args@[0]),
        args@.len() >= 2 ==> (d matches Directive::ReportUsage(message) && message@
            == usage_text()),
{
    if args.len() == 0 {
        Directive::StartInteractive
    } else if args.len() == 1 {
        Directive::LoadFile(args[0].clone())
    } else {
        Directive::ReportUsage(usage_message())
    }
}

/// The usage line, as written on the usage-error path.
pub fn usage_message() -> (m: String)
    ensures
        m@ == usage_text(),
{
    "Usage: rslox [script]".to_owned()
}

/// Maps a mode's outcome to the process exit status: success exits with
/// `EXIT_OK`, any reported error with `EXIT_DATA_ERROR`.
pub fn exit_status_of(outcome: &Result<(), ErrorKind>) -> (s: u8)
    ensures
        outcome is Ok ==> s == EXIT_OK,
        outcome is Err ==> s == EXIT_DATA_ERROR,
{
    match outcome {
        Ok(_) => EXIT_OK,
        Err(_) => EXIT_DATA_ERROR,
    }
}

/// A whole invocation of the driver, against a scripted world: the argument
/// list picks the mode, the chosen mode runs against the given file read or
/// the given interactive script, and its outcome becomes the exit status.
/// Two or more arguments exit with `EXIT_USAGE` whatever the arguments hold,
/// and the sink is never called; file mode with a failed read exits with
/// `EXIT_DATA_ERROR`, again without calling the sink; otherwise the sink sees
/// exactly the source text the mode feeds it, and only a clean outcome exits
/// with `EXIT_OK`.
pub fn run_driver(
    args: &Vec<String>,
    file_read: Option<Vec<u8>>,
    events: &Vec<ReadEvent>,
    sink: &mut ScriptedSink,
) -> (s: u8)
    requires
        events@.len() < usize::MAX,
    ensures
        args@.len() >= 2 ==> (s == EXIT_USAGE && *final(sink) == *old(sink)),
        (args@.len() == 1 && file_read is None) ==> (s == EXIT_DATA_ERROR && *final(sink) == *old(
            sink,
        )),
        args@.len() == 1 ==> (file_read matches Some(bytes) ==> {
            &&& final(sink).log() == old(sink).log().push(lossy_utf8(bytes@))
            &&& final(sink).responses == old(sink).responses
            &&& s == (if old(sink).next_response() is Success {
                EXIT_OK
            } else {
                EXIT_DATA_ERROR
            })
        }),
        args@.len() == 0 ==> {
            &&& final(sink).log() == old(sink).log() + dispatched_lines(events@)
            &&& final(sink).responses == old(sink).responses
            &&& s == (if session_outcome(events@) is Ok {
                EXIT_OK
            } else {
                EXIT_DATA_ERROR
            })
        },
{
    match dispatch(args) {
        Directive::StartInteractive => {
            let report = run_session(events, sink);
            exit_status_of(&report.outcome)
        },
        Directive::LoadFile(_) => {
            let outcome = run_file(file_read, sink);
            exit_status_of(&outcome)
        },
        Directive::ReportUsage(_) => EXIT_USAGE,
    }
}

} // verus!
