//! The error that stands for "something went wrong on our side".

use crate::http::{Flash, FlashView, Level, INTERNAL_SERVER_ERROR};
use crate::store::rows;
use crate::routes::handler_response::HandlerResponse;
use crate::text::join_text;
use vstd::prelude::*;

verus! {

/// A failure that the client cannot mend. It holds what went wrong, for the
/// log; the client is told only that something did.
#[derive(Debug)]
pub struct InternalServerError(pub String);

impl InternalServerError {
    /// The message of the error: "Something went wrong: " and the cause.
    pub open spec fn message(&self) -> Seq<char> {
        "Something went wrong: "@ + self.0@
    }

    /// The message of the error, as text.
    pub fn to_string(&self) -> (s: String)
        ensures
            s@ == self.message(),
    {
        join_text("Something went wrong: ", self.0.as_str())
    }

    /// The answer to the client: 500, "Something went wrong", whatever the
    /// cause.
    pub fn into_response(self) -> (r: HandlerResponse)
        ensures
            r.status_code == INTERNAL_SERVER_ERROR,
            r.message@ == "Something went wrong"@,
    {
        HandlerResponse {
            status_code: INTERNAL_SERVER_ERROR,
            message: "Something went wrong".to_owned(),
        }
    }
}

/// The internal error with the cause `e`.
pub fn e500(e: &str) -> (r: InternalServerError)
    ensures
        r.0@ == e@,
{
    InternalServerError(e.to_owned())
}

/// Index of the first message of `flashes` at or after `from` that has the
/// level `level`; the length of `flashes` where there is none.
pub open spec fn first_of_level(flashes: Seq<FlashView>, level: Level, from: int) -> int
    decreases flashes.len() - from,
{
    if from < 0 || from >= flashes.len() {
        flashes.len() as int
    } else if flashes[from].level == level {
        from
    } else {
        first_of_level(flashes, level, from + 1)
    }
}

/// The text of the first message of `flashes` that has the level `level`.
pub open spec fn message_of_level(flashes: Seq<FlashView>, level: Level) -> Option<Seq<char>> {
    let i = first_of_level(flashes, level, 0);
    if i < flashes.len() {
        Some(flashes[i].message)
    } else {
        None
    }
}

/// The view of an optional text.
pub open spec fn opt_string(s: Option<String>) -> Option<Seq<char>> {
    match s {
        Some(s) => Some(s@),
        None => None,
    }
}

/// The first message of `flashes` that has the level `level`.
fn find_message(flashes: &Vec<Flash>, level: Level) -> (r: Option<String>)
    ensures
        opt_string(r) == message_of_level(rows(flashes@), level),
{
    let mut i: usize = 0;
    while i < flashes.len()
        invariant
            i <= flashes.len(),
            first_of_level(rows(flashes@), level, 0) == first_of_level(
                rows(flashes@),
                level,
                i as int,
            ),
        decreases flashes.len() - i,
    {
        if flashes[i].level == level {
            assert(rows(flashes@)[i as int] == flashes@[i as int]@);
            return Some(flashes[i].message.clone());
        }
        assert(rows(flashes@)[i as int] == flashes@[i as int]@);
        i += 1;
    }
    None
}

/// The first message of success and the first message of failure among the
/// messages that the last request left.
pub fn get_success_and_error_flash_message(flashes: &Vec<Flash>) -> (r: (
    Option<String>,
    Option<String>,
))
    ensures
        opt_string(r.0) == message_of_level(rows(flashes@), Level::Success),
        opt_string(r.1) == message_of_level(rows(flashes@), Level::Error),
{
    (find_message(flashes, Level::Success), find_message(flashes, Level::Error))
}

/// How one of the two long-running parts of the service ended.
#[derive(Debug)]
pub enum Exit {
    /// It returned without an error.
    Completed,
    /// It returned this error.
    Failed(String),
    /// It did not run to its end, for this reason.
    Aborted(String),
}

/// How loud a line of the log is.
#[derive(Debug, Clone, Copy, PartialEq, Eq, Structural)]
pub enum Severity {
    Info,
    Error,
}

/// A line for the log: how loud, what it says, and the error that it is
/// about, where there is one.
#[derive(Debug)]
pub struct LogLine {
    pub severity: Severity,
    pub message: String,
    pub error: Option<String>,
}

/// The line that reports the end of the part called `task_name`.
pub fn report_exit(task_name: &str, outcome: Exit) -> (line: LogLine)
    ensures
        match outcome {
            Exit::Completed => line.severity == Severity::Info && line.message@ == task_name@
                + " has exited"@ && line.error is None,
            Exit::Failed(e) => line.severity == Severity::Error && line.message@ == task_name@
                + " failed"@ && line.error == Some(e),
            Exit::Aborted(e) => line.severity == Severity::Error && line.message@ == task_name@
                + "' task failed to complete"@ && line.error == Some(e),
        },
{
    match outcome {
        Exit::Completed => LogLine {
            severity: Severity::Info,
            message: join_text(task_name, " has exited"),
            error: None,
        },
        Exit::Failed(e) => LogLine {
            severity: Severity::Error,
            message: join_text(task_name, " failed"),
            error: Some(e),
        },
        Exit::Aborted(e) => LogLine {
            severity: Severity::Error,
            message: join_text(task_name, "' task failed to complete"),
            error: Some(e),
        },
    }
}

} // verus!
