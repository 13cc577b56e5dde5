//! A client-side library for driving a remote conversational-assistant
//! service: identifier types, assistant lookup and load-or-create logic,
//! message construction and reply extraction, and the run-polling state
//! machine that waits for an asynchronous run to reach a terminal state.
//!
//! All network traffic stays outside this crate; the functions here work on
//! plain values that a thin I/O layer hands in and takes back.

#![verifier::loop_isolation(false)]

mod asst;
mod error;
mod msg;
mod run;

pub use asst::{CreateConfig, AsstId, ThreadId, FileId, AsstSummary, GatewayModel, LoadPlan};
pub use asst::{first_by_name, load_or_create_plan, matches_name, is_first_match, has_match, id_at, has_id};
pub use asst::{new_asst, create_outcome, delete_outcome, upload_outcome, load_outcome};
pub use asst::{
    lemma_load_or_create_idempotent, lemma_load_or_create_recreates_fresh,
    lemma_load_or_create_absent,
};
pub use error::Error;
pub use msg::{MessageRole, MessageContent, MessageObject};
pub use msg::{user_msg, get_text_content, get_first_thread_msg_content};
pub use msg::{spec_text_content, has_assistant_msg, last_assistant_index, spec_reply};
pub use run::{RunStatus, StatusClass, RunPoll, PollOutcome, PollReport};
pub use run::{classify_status, poll_run, run_thread_msg, is_pending, is_terminal_failure, is_first_terminal};
