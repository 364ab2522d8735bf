//! The ping task: what it does once its probe is over.
//!
//! The probe itself is the caller's: it reads the target from the raw
//! message, checks within a bounded time whether the target answers, and
//! serialises the result. A result is sent back as one text frame on the
//! control transport. A failed probe is logged and nothing is sent: the
//! protocol knows no error reply.

use vstd::prelude::*;

verus! {

/// What a ping task does after its probe.
#[derive(Clone, Debug, PartialEq, Eq)]
pub enum PingStep {
    /// Send this text as one frame on the control transport.
    Reply(String),
    /// Send nothing; log why the probe failed.
    Failed(String),
}

/// The mathematical value of a [`PingStep`].
pub enum PingStepView {
    Reply(Seq<char>),
    Failed(Seq<char>),
}

impl View for PingStep {
    type V = PingStepView;

    open spec fn view(&self) -> PingStepView {
        match self {
            PingStep::Reply(text) => PingStepView::Reply(text@),
            PingStep::Failed(why) => PingStepView::Failed(why@),
        }
    }
}

/// The step that a probe's outcome leads to: the serialised result of a
/// probe that succeeded is the reply, whole and unchanged.
pub open spec fn step_after_probe(outcome: Result<String, String>) -> PingStepView {
    match outcome {
        Ok(result) => PingStepView::Reply(result@),
        Err(why) => PingStepView::Failed(why@),
    }
}

/// Decides what follows a probe. `outcome` holds the serialised result, or
/// the reason why there is none.
pub fn after_probe(outcome: Result<String, String>) -> (step: PingStep)
    ensures
        step@ == step_after_probe(outcome),
{
    match outcome {
        Ok(result) => PingStep::Reply(result),
        Err(why) => PingStep::Failed(why),
    }
}

/// A reply is sent if and only if the probe succeeded.
pub proof fn reply_only_on_success(outcome: Result<String, String>)
    ensures
        step_after_probe(outcome) is Reply <==> outcome is Ok,
{
}

} // verus!
