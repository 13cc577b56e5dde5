//! The run-polling state machine: classification of run statuses and the
//! orchestration loop that polls a run to a terminal state.
//!
//! The remote service runs an assistant against a thread asynchronously; the
//! client has no push channel, so it must poll the run's status. A poll
//! observation is a [`RunPoll`]; [`poll_run`] consumes a finite sequence of
//! observations (its length is the iteration cap) and reports how many polls
//! were issued and how the run ended.

use vstd::prelude::*;
use crate::error::Error;
use crate::msg::{MessageObject, spec_reply};

verus! {

/// The lifecycle status of a run, as reported by one status poll.
///
/// `Queued`, `InProgress` and `Incomplete` are pending; `Completed` is
/// terminal success; `Failed`, `Expired` and `Cancelled` are terminal
/// failures; `Unknown` stands for any status this client does not recognize
/// and is conservatively treated as a terminal failure.
#[derive(Clone, Copy, Debug, PartialEq, Eq, Structural)]
pub enum RunStatus {
    Queued,
    InProgress,
    Incomplete,
    Completed,
    Failed,
    Expired,
    Cancelled,
    Unknown,
}

/// True of the statuses under which the run may still make progress.
pub open spec fn is_pending(s: RunStatus) -> bool {
    s is Queued || s is InProgress || s is Incomplete
}

/// True of the statuses that end the run without a reply.
pub open spec fn is_terminal_failure(s: RunStatus) -> bool {
    s is Failed || s is Expired || s is Cancelled || s is Unknown
}

/// What one status poll tells the orchestrator to do next.
#[derive(Debug, PartialEq)]
pub enum StatusClass {
    /// Wait for the polling interval, then poll again.
    Pending,
    /// Stop polling and fetch the reply from the thread's messages.
    Success,
    /// Stop polling and report a terminal failure.
    Failure,
}

/// Classifies one observed run status.
pub fn classify_status(s: RunStatus) -> (c: StatusClass)
    ensures
        c is Pending <==> is_pending(s),
        c is Success <==> s is Completed,
        c is Failure <==> is_terminal_failure(s),
{
    match s {
        RunStatus::Queued | RunStatus::InProgress | RunStatus::Incomplete => StatusClass::Pending,
        RunStatus::Completed => StatusClass::Success,
        _ => StatusClass::Failure,
    }
}

/// One status-poll observation: the reported status and, when the server
/// supplied one, the error detail attached to the run.
pub struct RunPoll {
    pub status: RunStatus,
    pub last_error: Option<String>,
}

/// How a finite polling session ended.
#[derive(Debug, PartialEq)]
pub enum PollOutcome {
    /// A poll reported `Completed`: the reply may be fetched.
    Success,
    /// A poll reported a terminal failure; carries that status and detail.
    Failure { status: RunStatus, detail: Option<String> },
    /// Every observation in the trace was pending: the iteration cap was
    /// exhausted without reaching a terminal state.
    Exhausted,
}

/// The result of a polling session: how many polls were issued before the
/// session ended, and how it ended.
#[derive(Debug, PartialEq)]
pub struct PollReport {
    pub polls: usize,
    pub outcome: PollOutcome,
}

/// True when `k` indexes the first non-pending observation of `s`.
pub open spec fn is_first_terminal(s: Seq<RunPoll>, k: int) -> bool {
    &&& 0 <= k < s.len()
    &&& !is_pending(s[k].status)
    &&& forall|j: int| 0 <= j < k ==> is_pending(#[trigger] s[j].status)
}

/// Runs the polling loop over a trace of observations.
///
/// The trace holds, in order, what successive status polls would observe; its
/// length is the iteration cap. Polling stops at the first non-pending
/// observation. Exactly the observations up to and including that one count
/// as issued polls; a trace of pending observations only is exhausted in
/// full.
pub fn poll_run(polls: &Vec<RunPoll>) -> (r: PollReport)
    ensures
        r.outcome is Exhausted ==> {
            &&& r.polls == polls@.len()
            &&& forall|j: int| 0 <= j < polls@.len() ==> is_pending(#[trigger] polls@[j].status)
        },
        !(r.outcome is Exhausted) ==> {
            &&& is_first_terminal(polls@, r.polls - 1)
            &&& (r.outcome is Success <==> polls@[r.polls - 1].status is Completed)
            &&& (r.outcome matches PollOutcome::Failure { status, detail } ==> {
                &&& is_terminal_failure(polls@[r.polls - 1].status)
                &&& status == polls@[r.polls - 1].status
                &&& detail == polls@[r.polls - 1].last_error
            })
        },
{
    let mut i: usize = 0;
    while i < polls.len()
        invariant
            0 <= i <= polls@.len(),
            forall|j: int| 0 <= j < i ==> is_pending(#[trigger] polls@[j].status),
        decreases polls@.len() - i,
    {
        let p = &polls[i];
        match classify_status(p.status) {
            StatusClass::Pending => {
                i = i + 1;
            }
            StatusClass::Success => {
                return PollReport { polls: i + 1, outcome: PollOutcome::Success };
            }
            StatusClass::Failure => {
                let detail = match &p.last_error {
                    Some(d) => Some(d.clone()),
                    None => None,
                };
                return PollReport {
                    polls: i + 1,
                    outcome: PollOutcome::Failure { status: p.status, detail },
                };
            }
        }
    }
    PollReport { polls: i, outcome: PollOutcome::Exhausted }
}

/// First terminal observations are the same index.
proof fn lemma_first_terminal_unique(s: Seq<RunPoll>, k1: int, k2: int)
    requires
        is_first_terminal(s, k1),
        is_first_terminal(s, k2),
    ensures
        k1 == k2,
{
}

/// The orchestration core of one message exchange, after the message has
/// been appended and the run created: polls the run to a terminal state over
/// the observation trace, then decides the reply.
///
/// On terminal success the reply is extracted from the fetched message list
/// as [`get_first_thread_msg_content`] does; a terminal failure is returned
/// as `RunTerminal` with the deciding status and its detail, and the message
/// list is not consulted; a trace exhausted while pending is a `Timeout`.
///
/// [`get_first_thread_msg_content`]: crate::msg::get_first_thread_msg_content
pub fn run_thread_msg(polls: &Vec<RunPoll>, msgs: Vec<MessageObject>) -> (r: Result<String, Error>)
    ensures
        (forall|j: int| 0 <= j < polls@.len() ==> is_pending(#[trigger] polls@[j].status)) ==> r
            == Err::<String, Error>(Error::Timeout),
        forall|k: int| is_first_terminal(polls@, k) ==> {
            &&& (polls@[k].status is Completed ==> r == spec_reply(msgs@))
            &&& (is_terminal_failure(polls@[k].status) ==> r == Err::<String, Error>(
                Error::RunTerminal { status: polls@[k].status, detail: polls@[k].last_error },
            ))
        },
{
    let report = poll_run(polls);
    let r: Result<String, Error> = match report.outcome {
        PollOutcome::Success => crate::msg::get_first_thread_msg_content(msgs),
        PollOutcome::Failure { status, detail } => Err(Error::RunTerminal { status, detail }),
        PollOutcome::Exhausted => Err(Error::Timeout),
    };
    proof {
        if !(report.outcome is Exhausted) {
            assert forall|k: int| is_first_terminal(polls@, k) implies k == report.polls - 1 by {
                lemma_first_terminal_unique(polls@, k, report.polls - 1);
            }
        } else {
            assert forall|k: int| !is_first_terminal(polls@, k) by {
                if 0 <= k < polls@.len() {
                    assert(is_pending(polls@[k].status));
                }
            }
        }
    }
    r
}

} // verus!
