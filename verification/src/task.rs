//! Waiting for an asynchronous Meilisearch task: what each poll of
//! `/tasks/{uid}` means, and the errors that end the wait.
//!
//! The caller runs the loop: it checks the deadline, polls, hands the outcome
//! to [`poll_step`], and either sleeps and polls again or stops with the
//! result.

use vstd::prelude::*;

use crate::text::{decimal_string, decimal_text, joined, same_text};

verus! {

/// What http's `StatusCode` `Display` writes for `code` (the number and its
/// canonical reason phrase).
pub uninterp spec fn status_code_display(code: u16) -> Seq<char>;

/// A status code that http's `StatusCode` can hold.
pub open spec fn valid_status(code: u16) -> bool {
    100 <= code <= 999
}

/// Calls `Display` on reqwest's (that is http's) `StatusCode` built from
/// `code`. The contract claims only that the text depends on the code alone.
#[verifier::external_body]
fn status_code_text(code: u16) -> (r: String)
    requires
        valid_status(code),
    ensures
        r@ == status_code_display(code),
{
    match reqwest::StatusCode::from_u16(code) {
        Ok(status) => status.to_string(),
        Err(_) => String::new(),
    }
}

/// A 4xx status.
pub open spec fn is_client_error(code: u16) -> bool {
    400 <= code < 500
}

/// A 5xx status.
pub open spec fn is_server_error(code: u16) -> bool {
    500 <= code < 600
}

/// A failure while polling that is neither a denied permission, a failed
/// task nor a timeout.
#[derive(Debug)]
pub enum PollFailure {
    /// The body of the task response could not be read.
    ReadResponse(String),
    /// `/tasks/{uid}` answered with an error status other than 401 or 403.
    HttpStatus { task_uid: u64, status: u16 },
    /// The task response is not a task status document.
    Parse(String),
}

/// Why waiting for a task did not end with its result.
#[derive(Debug)]
pub enum WaitForTaskError {
    /// The caller's API key may not read `/tasks/{uid}` (401 or 403): the
    /// task may still run or may have succeeded.
    PermissionDenied { task_uid: u64, status: u16 },
    /// The task ended as `failed` or `canceled`.
    TaskFailed { task_uid: u64, state: String },
    /// The task did not end before the deadline.
    TimedOut { task_uid: u64 },
    /// Any other failure while polling.
    Other(PollFailure),
}

/// What one poll of `/tasks/{uid}` gave.
#[derive(Debug)]
pub enum PollEvent {
    /// The deadline has passed before this poll.
    DeadlinePassed,
    /// The request did not get an answer (network error).
    RequestFailed,
    /// An answer came, but its body could not be read.
    ResponseUnreadable(String),
    /// An answer with its status, body, and the body read as a task status
    /// document: its `status` field, or why it is not one.
    Answered { status: u16, body: Vec<u8>, task_status: Result<String, String> },
}

/// What to do after a poll.
#[derive(Debug)]
pub enum PollStep {
    /// Sleep for the poll interval, then poll again.
    Retry,
    /// Stop waiting: the final task document, or why there is none.
    Finish(Result<Vec<u8>, WaitForTaskError>),
}

/// Whether the statuses an event carries are ones a status code can hold.
pub open spec fn valid_poll_event(event: PollEvent) -> bool {
    event matches PollEvent::Answered { status, .. } ==> valid_status(status)
}

/// The meaning of one poll of task `task_uid`.
pub open spec fn spec_poll_step(task_uid: u64, event: PollEvent) -> PollStep {
    match event {
        PollEvent::DeadlinePassed => PollStep::Finish(Err(WaitForTaskError::TimedOut { task_uid })),
        PollEvent::RequestFailed => PollStep::Retry,
        PollEvent::ResponseUnreadable(e) => PollStep::Finish(
            Err(WaitForTaskError::Other(PollFailure::ReadResponse(e))),
        ),
        PollEvent::Answered { status, body, task_status } => {
            if status == 401 || status == 403 {
                PollStep::Finish(Err(WaitForTaskError::PermissionDenied { task_uid, status }))
            } else if is_client_error(status) || is_server_error(status) {
                PollStep::Finish(
                    Err(WaitForTaskError::Other(PollFailure::HttpStatus { task_uid, status })),
                )
            } else {
                match task_status {
                    Err(e) => PollStep::Finish(Err(WaitForTaskError::Other(PollFailure::Parse(e)))),
                    Ok(s) => if s@ == "succeeded"@ {
                        PollStep::Finish(Ok(body))
                    } else if s@ == "failed"@ || s@ == "canceled"@ {
                        PollStep::Finish(Err(WaitForTaskError::TaskFailed { task_uid, state: s }))
                    } else {
                        PollStep::Retry
                    },
                }
            }
        },
    }
}

/// Decides what one poll of task `task_uid` means: keep polling, or stop
/// with the task document or an error.
pub fn poll_step(task_uid: u64, event: PollEvent) -> (r: PollStep)
    requires
        valid_poll_event(event),
    ensures
        r == spec_poll_step(task_uid, event),
{
    match event {
        PollEvent::DeadlinePassed => PollStep::Finish(Err(WaitForTaskError::TimedOut { task_uid })),
        PollEvent::RequestFailed => PollStep::Retry,
        PollEvent::ResponseUnreadable(e) => PollStep::Finish(
            Err(WaitForTaskError::Other(PollFailure::ReadResponse(e))),
        ),
        PollEvent::Answered { status, body, task_status } => {
            if status == 401 || status == 403 {
                PollStep::Finish(Err(WaitForTaskError::PermissionDenied { task_uid, status }))
            } else if (400 <= status && status < 500) || (500 <= status && status < 600) {
                PollStep::Finish(
                    Err(WaitForTaskError::Other(PollFailure::HttpStatus { task_uid, status })),
                )
            } else {
                match task_status {
                    Err(e) => PollStep::Finish(Err(WaitForTaskError::Other(PollFailure::Parse(e)))),
                    Ok(s) => if same_text(s.as_str(), "succeeded") {
                        PollStep::Finish(Ok(body))
                    } else if same_text(s.as_str(), "failed") || same_text(s.as_str(), "canceled") {
                        PollStep::Finish(Err(WaitForTaskError::TaskFailed { task_uid, state: s }))
                    } else {
                        PollStep::Retry
                    },
                }
            }
        },
    }
}

/// Whether the statuses an error carries are ones a status code can hold.
pub open spec fn valid_wait_error(e: WaitForTaskError) -> bool {
    match e {
        WaitForTaskError::PermissionDenied { status, .. } => valid_status(status),
        WaitForTaskError::Other(PollFailure::HttpStatus { status, .. }) => valid_status(status),
        _ => true,
    }
}

/// The text of an error, as it is logged and sent to the client.
pub open spec fn wait_error_text(e: WaitForTaskError) -> Seq<char> {
    match e {
        WaitForTaskError::PermissionDenied { task_uid, status } => "caller's API key cannot poll task "@
            + decimal_text(task_uid as nat) + " status: "@ + status_code_display(status),
        WaitForTaskError::TaskFailed { task_uid, state } => "task "@ + decimal_text(task_uid as nat)
            + " terminal state: "@ + state@,
        WaitForTaskError::TimedOut { task_uid } => "timed out waiting for task "@ + decimal_text(
            task_uid as nat,
        ),
        WaitForTaskError::Other(PollFailure::ReadResponse(e)) => "failed to read task response: "@
            + e@,
        WaitForTaskError::Other(PollFailure::HttpStatus { task_uid, status }) => "error fetching task "@
            + decimal_text(task_uid as nat) + ": "@ + status_code_display(status),
        WaitForTaskError::Other(PollFailure::Parse(e)) => "failed to parse task response: "@ + e@,
    }
}

impl WaitForTaskError {
    /// The text of the error.
    pub fn message(&self) -> (r: String)
        requires
            valid_wait_error(*self),
        ensures
            r@ == wait_error_text(*self),
    {
        match self {
            WaitForTaskError::PermissionDenied { task_uid, status } => {
                let mut s = joined("caller's API key cannot poll task ", decimal_string(*task_uid).as_str());
                s.append(" status: ");
                s.append(status_code_text(*status).as_str());
                s
            },
            WaitForTaskError::TaskFailed { task_uid, state } => {
                let mut s = joined("task ", decimal_string(*task_uid).as_str());
                s.append(" terminal state: ");
                s.append(state.as_str());
                s
            },
            WaitForTaskError::TimedOut { task_uid } => joined(
                "timed out waiting for task ",
                decimal_string(*task_uid).as_str(),
            ),
            WaitForTaskError::Other(PollFailure::ReadResponse(e)) => joined(
                "failed to read task response: ",
                e.as_str(),
            ),
            WaitForTaskError::Other(PollFailure::HttpStatus { task_uid, status }) => {
                let mut s = joined("error fetching task ", decimal_string(*task_uid).as_str());
                s.append(": ");
                s.append(status_code_text(*status).as_str());
                s
            },
            WaitForTaskError::Other(PollFailure::Parse(e)) => joined(
                "failed to parse task response: ",
                e.as_str(),
            ),
        }
    }
}


/// Waiting ends with a task document only when Meilisearch answered the poll
/// with a non-error status and reported the task as `succeeded`; the
/// document is the body of that answer.
pub proof fn lemma_success_only_when_succeeded(task_uid: u64, event: PollEvent, task: Vec<u8>)
    requires
        spec_poll_step(task_uid, event) == PollStep::Finish(Ok(task)),
    ensures
        event matches PollEvent::Answered { status, body, task_status: Ok(s) } && !(400 <= status
            && status < 600) && s@ == "succeeded"@ && body == task,
{
}

/// A `failed` or `canceled` task ends the wait with `TaskFailed`, carrying
/// that terminal state.
pub proof fn lemma_terminal_failure(task_uid: u64, status: u16, body: Vec<u8>, s: String)
    requires
        !(400 <= status && status < 600),
        s@ == "failed"@ || s@ == "canceled"@,
    ensures
        spec_poll_step(task_uid, PollEvent::Answered { status, body, task_status: Ok(s) })
            == PollStep::Finish(Err(WaitForTaskError::TaskFailed { task_uid, state: s })),
{
    reveal_strlit("succeeded");
    reveal_strlit("failed");
    reveal_strlit("canceled");
    assert("failed"@.len() != "succeeded"@.len());
    assert("canceled"@.len() != "succeeded"@.len());
}

/// A task that has not reached a terminal state is polled again, and so is
/// a poll that got no answer at all.
pub proof fn lemma_unfinished_task_is_polled_again(
    task_uid: u64,
    status: u16,
    body: Vec<u8>,
    s: String,
)
    requires
        !(400 <= status && status < 600),
        s@ != "succeeded"@ && s@ != "failed"@ && s@ != "canceled"@,
    ensures
        spec_poll_step(task_uid, PollEvent::Answered { status, body, task_status: Ok(s) })
            == PollStep::Retry,
        spec_poll_step(task_uid, PollEvent::RequestFailed) == PollStep::Retry,
{
}

/// The wait reports a denied permission exactly when the poll was answered
/// with 401 or 403, and gives up with `TimedOut` once the deadline has
/// passed.
pub proof fn lemma_permission_and_deadline(task_uid: u64, event: PollEvent)
    ensures
        (spec_poll_step(task_uid, event) matches PollStep::Finish(
            Err(WaitForTaskError::PermissionDenied { .. }),
        )) <==> (event matches PollEvent::Answered { status, .. } && (status == 401 || status
            == 403)),
        event is DeadlinePassed ==> spec_poll_step(task_uid, event) == PollStep::Finish(
            Err(WaitForTaskError::TimedOut { task_uid }),
        ),
{
}


/// A poll answered with a status outside 400..599 whose task is `succeeded`
/// ends the wait with that answer's body, whatever the task's number.
pub proof fn lemma_succeeded_task_ends_wait(task_uid: u64, status: u16, body: Vec<u8>, s: String)
    requires
        !(400 <= status && status < 600),
        s@ == "succeeded"@,
    ensures
        spec_poll_step(task_uid, PollEvent::Answered { status, body, task_status: Ok(s) })
            == PollStep::Finish(Ok::<Vec<u8>, WaitForTaskError>(body)),
{
}

/// A poll answered with a 4xx or 5xx status ends the wait, whatever the
/// body says: 401 and 403 as a denied permission, the others as an HTTP
/// failure carrying the task's number and the status.
pub proof fn lemma_error_status_ends_wait(
    task_uid: u64,
    status: u16,
    body: Vec<u8>,
    task_status: Result<String, String>,
)
    requires
        400 <= status && status < 600,
    ensures
        spec_poll_step(task_uid, PollEvent::Answered { status, body, task_status }) == if status
            == 401 || status == 403 {
            PollStep::Finish(Err(WaitForTaskError::PermissionDenied { task_uid, status }))
        } else {
            PollStep::Finish(Err(WaitForTaskError::Other(PollFailure::HttpStatus { task_uid, status })))
        },
{
}

/// A poll whose answer is not a task status document ends the wait with the
/// reason, when the status is not an error.
pub proof fn lemma_malformed_task_ends_wait(task_uid: u64, status: u16, body: Vec<u8>, e: String)
    requires
        !(400 <= status && status < 600),
    ensures
        spec_poll_step(task_uid, PollEvent::Answered { status, body, task_status: Err(e) })
            == PollStep::Finish(Err::<Vec<u8>, WaitForTaskError>(WaitForTaskError::Other(PollFailure::Parse(e)))),
{
}


/// The texts of the errors that end a wait name the task by its decimal
/// number, and carry the terminal state or the reason.
pub proof fn lemma_error_texts(task_uid: u64, state: String, reason: String, status: u16)
    ensures
        wait_error_text(WaitForTaskError::PermissionDenied { task_uid, status })
            == "caller's API key cannot poll task "@ + decimal_text(task_uid as nat) + " status: "@
            + status_code_display(status),
        wait_error_text(WaitForTaskError::Other(PollFailure::HttpStatus { task_uid, status }))
            == "error fetching task "@ + decimal_text(task_uid as nat) + ": "@
            + status_code_display(status),
        wait_error_text(WaitForTaskError::TimedOut { task_uid }) == "timed out waiting for task "@
            + decimal_text(task_uid as nat),
        wait_error_text(WaitForTaskError::TaskFailed { task_uid, state }) == "task "@
            + decimal_text(task_uid as nat) + " terminal state: "@ + state@,
        wait_error_text(WaitForTaskError::Other(PollFailure::ReadResponse(reason)))
            == "failed to read task response: "@ + reason@,
        wait_error_text(WaitForTaskError::Other(PollFailure::Parse(reason)))
            == "failed to parse task response: "@ + reason@,
{
}

} // verus!
