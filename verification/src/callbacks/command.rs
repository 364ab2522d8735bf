//! The command task: how the delivery of a command's result is judged.
//!
//! The caller decodes the command from the raw message, runs it to its end
//! and posts what it printed to the callback address, once. Where the message
//! holds no command or the command does not start, there is nothing to post
//! and nothing to judge. Nothing is tried again: an error is logged and the
//! task is over.

use vstd::prelude::*;
use crate::http::{is_success, status_is_success};

verus! {

/// Why the result of a command did not arrive.
#[derive(Clone, Copy, Debug, PartialEq, Eq, Structural)]
pub enum CallbackError {
    /// The post to the callback address failed: no response came that could
    /// be judged.
    Post,
    /// The callback address answered with this status, which is no success.
    Status(u16),
}

/// The verdict on the post of a result: `response` is the status of the
/// response, or `None` where the request failed before one came.
pub open spec fn callback_outcome(response: Option<u16>) -> Result<(), CallbackError> {
    match response {
        None => Err(CallbackError::Post),
        Some(status) => if is_success(status) {
            Ok(())
        } else {
            Err(CallbackError::Status(status))
        },
    }
}

/// Judges the post of a command's result by the response that came back.
pub fn judge_callback(response: Option<u16>) -> (r: Result<(), CallbackError>)
    ensures
        r == callback_outcome(response),
{
    match response {
        None => Err(CallbackError::Post),
        Some(status) => if status_is_success(status) {
            Ok(())
        } else {
            Err(CallbackError::Status(status))
        },
    }
}

} // verus!
