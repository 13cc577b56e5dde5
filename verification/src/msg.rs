//! Messages: construction of outbound user messages and extraction of plain
//! text from inbound assistant messages.
//!
//! The remote service represents message content as an ordered sequence of
//! typed blocks; text is the only block kind this client understands.

use vstd::prelude::*;
use crate::error::Error;

verus! {

/// The author of a message in a thread.
#[derive(Clone, Copy, Debug, PartialEq, Eq, Structural)]
pub enum MessageRole {
    User,
    Assistant,
}

/// One content block of a message: text, or any block kind this client does
/// not understand.
#[derive(Debug, PartialEq)]
pub enum MessageContent {
    Text(String),
    Other,
}

/// One turn in a thread: a role and an ordered sequence of content blocks.
#[derive(Debug, PartialEq)]
pub struct MessageObject {
    pub role: MessageRole,
    pub content: Vec<MessageContent>,
}

/// What text extraction yields on a message: the text of the first content
/// block when that block is text, and a content-shape error otherwise.
/// Only the first block is inspected; multi-block messages are not
/// aggregated.
pub open spec fn spec_text_content(m: MessageObject) -> Result<String, Error> {
    if m.content@.len() > 0 {
        match m.content@[0] {
            MessageContent::Text(t) => Ok(t),
            MessageContent::Other => Err(Error::Content),
        }
    } else {
        Err(Error::Content)
    }
}

/// Wraps plain text as a user-authored message with a single text block,
/// ready to submit to a thread.
pub fn user_msg(content: String) -> (m: MessageObject)
    ensures
        m.role is User,
        m.content@ == seq![MessageContent::Text(content)],
{
    let mut blocks: Vec<MessageContent> = Vec::new();
    blocks.push(MessageContent::Text(content));
    assert(blocks@ =~= seq![MessageContent::Text(content)]);
    MessageObject { role: MessageRole::User, content: blocks }
}

/// Returns the text of the message's first content block, or `Content` when
/// the message has no blocks or its first block is not text.
pub fn get_text_content(msg: MessageObject) -> (r: Result<String, Error>)
    ensures
        r == spec_text_content(msg),
{
    let mut content = msg.content;
    if content.len() == 0 {
        return Err(Error::Content);
    }
    let first = content.remove(0);
    match first {
        MessageContent::Text(t) => Ok(t),
        MessageContent::Other => Err(Error::Content),
    }
}

/// True when some message of `s` is assistant-authored.
pub open spec fn has_assistant_msg(s: Seq<MessageObject>) -> bool {
    exists|i: int| 0 <= i < s.len() && (#[trigger] s[i]).role is Assistant
}

/// The index of the last assistant-authored message of `s`, or -1 when there
/// is none. The list is taken in server-return order; the scan policy of
/// this client is fixed: the assistant message closest to the end of the
/// list is the one whose text is returned.
pub open spec fn last_assistant_index(s: Seq<MessageObject>) -> int
    decreases s.len(),
{
    if s.len() == 0 {
        -1
    } else if s.last().role is Assistant {
        s.len() - 1
    } else {
        last_assistant_index(s.drop_last())
    }
}

/// What reply extraction yields on a fetched message list: the text content
/// of the last assistant-authored message, or `NotFound` when no message is
/// assistant-authored.
pub open spec fn spec_reply(s: Seq<MessageObject>) -> Result<String, Error> {
    if has_assistant_msg(s) {
        spec_text_content(s[last_assistant_index(s)])
    } else {
        Err(Error::NotFound)
    }
}

proof fn lemma_last_assistant_index(s: Seq<MessageObject>, k: int)
    requires
        0 <= k < s.len(),
        s[k].role is Assistant,
        forall|j: int| k < j < s.len() ==> !((#[trigger] s[j]).role is Assistant),
    ensures
        last_assistant_index(s) == k,
    decreases s.len(),
{
    if k == s.len() - 1 {
    } else {
        assert(!(s.last().role is Assistant));
        assert(s.drop_last()[k] == s[k]);
        assert forall|j: int| k < j < s.drop_last().len() implies !((#[trigger] s.drop_last()[j]).role
            is Assistant) by {
            assert(s.drop_last()[j] == s[j]);
        }
        lemma_last_assistant_index(s.drop_last(), k);
    }
}

proof fn lemma_no_assistant(s: Seq<MessageObject>)
    requires
        forall|j: int| 0 <= j < s.len() ==> !((#[trigger] s[j]).role is Assistant),
    ensures
        !has_assistant_msg(s),
{
}

/// Scans a fetched message list for the most recent assistant reply and
/// returns its text. The message closest to the end of the list wins;
/// `NotFound` when no message is assistant-authored, `Content` when the
/// winning message's first block is missing or not text.
pub fn get_first_thread_msg_content(msgs: Vec<MessageObject>) -> (r: Result<String, Error>)
    ensures
        r == spec_reply(msgs@),
{
    let ghost gs = msgs@;
    let mut fetched = msgs;
    let mut i: usize = fetched.len();
    while i > 0
        invariant
            0 <= i <= gs.len(),
            fetched@ == gs,
            forall|j: int| i <= j < gs.len() ==> !((#[trigger] gs[j]).role is Assistant),
        decreases i,
    {
        i = i - 1;
        let is_assistant = match fetched[i].role {
            MessageRole::Assistant => true,
            MessageRole::User => false,
        };
        if is_assistant {
            proof {
                assert(gs[i as int].role is Assistant);
                assert(has_assistant_msg(gs));
                lemma_last_assistant_index(gs, i as int);
            }
            let m = fetched.remove(i);
            return get_text_content(m);
        }
    }
    proof {
        lemma_no_assistant(gs);
    }
    Err(Error::NotFound)
}

} // verus!
