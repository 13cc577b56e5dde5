use buddy::{Error, MessageContent, MessageObject, MessageRole, PollOutcome, RunPoll, RunStatus,
    StatusClass};
use buddy::{classify_status, get_first_thread_msg_content, get_text_content, poll_run,
    run_thread_msg, user_msg};

fn poll(status: RunStatus) -> RunPoll {
    RunPoll { status, last_error: None }
}

fn text_msg(role: MessageRole, text: &str) -> MessageObject {
    MessageObject { role, content: vec![MessageContent::Text(text.to_string())] }
}

#[test]
fn polling_stops_at_completion() {
    // A queued, an in-progress and a completed observation: exactly three
    // polls, then the reply may be fetched.
    let trace = vec![
        poll(RunStatus::Queued),
        poll(RunStatus::InProgress),
        poll(RunStatus::Completed),
    ];
    let report = poll_run(&trace);
    assert_eq!(report.polls, 3);
    assert_eq!(report.outcome, PollOutcome::Success);
}

#[test]
fn completed_run_returns_extracted_text() {
    let trace = vec![
        poll(RunStatus::Queued),
        poll(RunStatus::InProgress),
        poll(RunStatus::Completed),
    ];
    let msgs = vec![
        text_msg(MessageRole::Assistant, "hello"),
        text_msg(MessageRole::User, "question"),
    ];
    let r = run_thread_msg(&trace, msgs);
    assert_eq!(r, Ok("hello".to_string()));
}

#[test]
fn first_poll_failure_propagates_detail() {
    // A first poll reporting failure ends the session after one poll, with
    // the server detail carried through, and the message list is never
    // consulted.
    let trace = vec![RunPoll {
        status: RunStatus::Failed,
        last_error: Some("quota_exceeded".to_string()),
    }];
    let report = poll_run(&trace);
    assert_eq!(report.polls, 1);
    assert_eq!(
        report.outcome,
        PollOutcome::Failure {
            status: RunStatus::Failed,
            detail: Some("quota_exceeded".to_string()),
        }
    );

    let msgs = vec![text_msg(MessageRole::Assistant, "stale")];
    let r = run_thread_msg(&trace, msgs);
    assert_eq!(
        r,
        Err(Error::RunTerminal {
            status: RunStatus::Failed,
            detail: Some("quota_exceeded".to_string()),
        })
    );
}

#[test]
fn expired_cancelled_and_unknown_are_terminal_failures() {
    for status in [RunStatus::Expired, RunStatus::Cancelled, RunStatus::Unknown] {
        let trace = vec![poll(RunStatus::Queued), poll(status)];
        let report = poll_run(&trace);
        assert_eq!(report.polls, 2);
        assert_eq!(report.outcome, PollOutcome::Failure { status, detail: None });
    }
}

#[test]
fn exhausted_trace_times_out() {
    let trace = vec![poll(RunStatus::Queued), poll(RunStatus::InProgress)];
    let report = poll_run(&trace);
    assert_eq!(report.polls, 2);
    assert_eq!(report.outcome, PollOutcome::Exhausted);

    let r = run_thread_msg(&trace, vec![]);
    assert_eq!(r, Err(Error::Timeout));
}

#[test]
fn status_classification() {
    assert_eq!(classify_status(RunStatus::Queued), StatusClass::Pending);
    assert_eq!(classify_status(RunStatus::InProgress), StatusClass::Pending);
    assert_eq!(classify_status(RunStatus::Incomplete), StatusClass::Pending);
    assert_eq!(classify_status(RunStatus::Completed), StatusClass::Success);
    assert_eq!(classify_status(RunStatus::Failed), StatusClass::Failure);
    assert_eq!(classify_status(RunStatus::Expired), StatusClass::Failure);
    assert_eq!(classify_status(RunStatus::Cancelled), StatusClass::Failure);
    assert_eq!(classify_status(RunStatus::Unknown), StatusClass::Failure);
}

#[test]
fn extract_text_returns_first_block() {
    let m = text_msg(MessageRole::Assistant, "hello");
    assert_eq!(get_text_content(m), Ok("hello".to_string()));
}

#[test]
fn extract_text_rejects_empty_content() {
    let m = MessageObject { role: MessageRole::Assistant, content: vec![] };
    assert_eq!(get_text_content(m), Err(Error::Content));
}

#[test]
fn extract_text_rejects_non_text_block() {
    let m = MessageObject { role: MessageRole::Assistant, content: vec![MessageContent::Other] };
    assert_eq!(get_text_content(m), Err(Error::Content));
}

#[test]
fn user_msg_wraps_text() {
    let m = user_msg("What is the second best programming language?".to_string());
    assert_eq!(m.role, MessageRole::User);
    assert_eq!(
        m.content,
        vec![MessageContent::Text(
            "What is the second best programming language?".to_string()
        )]
    );
}

#[test]
fn reply_takes_last_assistant_message() {
    // The assistant message closest to the end of the fetched list wins.
    let msgs = vec![
        text_msg(MessageRole::Assistant, "first"),
        text_msg(MessageRole::User, "question"),
        text_msg(MessageRole::Assistant, "second"),
        text_msg(MessageRole::User, "follow-up"),
    ];
    assert_eq!(get_first_thread_msg_content(msgs), Ok("second".to_string()));
}

#[test]
fn reply_without_assistant_message_is_not_found() {
    let msgs = vec![text_msg(MessageRole::User, "question")];
    assert_eq!(get_first_thread_msg_content(msgs), Err(Error::NotFound));
    assert_eq!(get_first_thread_msg_content(vec![]), Err(Error::NotFound));
}

#[test]
fn reply_with_malformed_assistant_message_is_content_error() {
    let msgs = vec![
        text_msg(MessageRole::Assistant, "good"),
        MessageObject { role: MessageRole::Assistant, content: vec![] },
    ];
    assert_eq!(get_first_thread_msg_content(msgs), Err(Error::Content));
}
