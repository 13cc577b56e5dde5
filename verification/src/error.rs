//! The error taxonomy of the library.

use vstd::prelude::*;
use crate::run::RunStatus;

verus! {

/// A typed failure, propagated unchanged to the immediate caller.
///
/// - `Credential`: the required API credential is absent; fatal at startup,
///   before any remote call is attempted.
/// - `Api`: a remote call failed; carries the reported detail.
/// - `Content`: a fetched message has no content blocks, or its first block
///   is not text.
/// - `NotFound`: no assistant-authored message was found when extracting a
///   reply, or a named resource was absent.
/// - `RunTerminal`: a run reached a terminal failure status; carries that
///   status and, when the server supplied one, the error detail.
/// - `Timeout`: the polling iteration cap was exhausted while the run was
///   still pending.
#[derive(Debug, PartialEq)]
pub enum Error {
    Credential,
    Api(String),
    Content,
    NotFound,
    RunTerminal { status: RunStatus, detail: Option<String> },
    Timeout,
}

} // verus!
