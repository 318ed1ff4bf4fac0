//! The command that asks whether the engine is there.

use crate::commands::serves_guild;
use crate::engine::{conclude, fail, proceed, Invocation, Outcome, Progress, Request, Response};
use crate::notices::Notice;
use vstd::prelude::*;

verus! {

/// The stages of a ping.
#[derive(Clone, Copy, Debug, PartialEq, Eq, Structural)]
pub enum PingStage {
    /// Asked whether the community is set up.
    Gate,
}

/// The first stage of a ping, and the question it starts with.
pub open spec fn spec_begin_ping(call: Invocation) -> (Progress<PingStage>, Request) {
    proceed(PingStage::Gate, serves_guild(call.guild))
}

/// One step of a ping: a community that is set up is answered, one that is
/// not is told so.
pub open spec fn spec_ping(call: Invocation, stage: PingStage, response: Response) -> (
    Progress<PingStage>,
    Request,
) {
    match stage {
        PingStage::Gate => match response {
            Response::Flag(true) => conclude(
                Outcome::Completed,
                Request::Reply { notice: Notice::Pong },
            ),
            Response::Flag(false) => conclude(
                Outcome::NotConfigured,
                Request::Reply { notice: Notice::NotConfigured },
            ),
            _ => fail(),
        },
    }
}

/// Takes a ping one step further.
#[verifier::when_used_as_spec(spec_ping)]
pub fn ping(call: Invocation, stage: PingStage, response: Response) -> (next: (
    Progress<PingStage>,
    Request,
))
    ensures
        next == spec_ping(call, stage, response),
{
    match stage {
        PingStage::Gate => match response {
            Response::Flag(true) => conclude(
                Outcome::Completed,
                Request::Reply { notice: Notice::Pong },
            ),
            Response::Flag(false) => conclude(
                Outcome::NotConfigured,
                Request::Reply { notice: Notice::NotConfigured },
            ),
            _ => fail(),
        },
    }
}

} // verus!
