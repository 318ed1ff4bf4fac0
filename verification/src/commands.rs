//! The slash commands, and the admission that the restricted ones share.

pub mod onboarding;
pub mod ping;
pub mod setup;

use crate::engine::{Invocation, Outcome, Request, Response, Failure};
use crate::notices::Notice;
use crate::store::{Field, Record};
use vstd::prelude::*;

verus! {

/// The question whether a community has been set up.
pub open spec fn spec_serves_guild(guild: u64) -> Request {
    Request::Flag { record: Record::Guild(guild), field: Field::Configured }
}

/// The question whether a community has been set up.
#[verifier::when_used_as_spec(spec_serves_guild)]
pub fn serves_guild(guild: u64) -> (request: Request)
    ensures
        request == spec_serves_guild(guild),
{
    Request::Flag { record: Record::Guild(guild), field: Field::Configured }
}

/// The stages of admitting a caller to a restricted command.
#[derive(Clone, Copy, Debug, PartialEq, Eq, Structural)]
pub enum Admission {
    /// Asked whether the community is set up.
    Gate,
    /// Asked for the administrators' role.
    AdminRole,
    /// Asked whether the caller holds that role.
    Membership,
}

/// What admission has come to.
#[derive(Clone, Debug, PartialEq, Eq)]
pub enum Verdict {
    /// Another question has to be asked first.
    Ask(Admission, Request),
    /// The caller may go on.
    Pass,
    /// The caller is turned away with a notice.
    Refuse(Outcome, Notice),
    /// Admission could not be decided.
    Fail(Outcome),
}

/// Admission to a restricted command. The community must be set up, and
/// the caller must own it or hold its administrators' role; the owner is
/// admitted without asking the platform. A role that the platform does not
/// know is an error of configuration, not a refusal.
pub open spec fn spec_screen(call: Invocation, stage: Admission, response: Response) -> Verdict {
    match stage {
        Admission::Gate => match response {
            Response::Flag(true) => Verdict::Ask(
                Admission::AdminRole,
                Request::Lookup { record: Record::Guild(call.guild), field: Field::AdminRole },
            ),
            Response::Flag(false) => Verdict::Refuse(Outcome::NotConfigured, Notice::NotConfigured),
            _ => Verdict::Fail(Outcome::ExternalCallFailure),
        },
        Admission::AdminRole => match response {
            Response::Id(role) => if call.actor == call.owner {
                Verdict::Pass
            } else {
                Verdict::Ask(
                    Admission::Membership,
                    Request::HasRole { guild: call.guild, user: call.actor, role },
                )
            },
            _ => Verdict::Fail(Outcome::ExternalCallFailure),
        },
        Admission::Membership => match response {
            Response::Flag(true) => Verdict::Pass,
            Response::Flag(false) => Verdict::Refuse(
                Outcome::AuthorizationDenied,
                Notice::InsufficientRights,
            ),
            Response::Failed(Failure::NotFound) => Verdict::Fail(Outcome::ConfigurationError),
            _ => Verdict::Fail(Outcome::ExternalCallFailure),
        },
    }
}

/// Takes admission one step further.
#[verifier::when_used_as_spec(spec_screen)]
pub fn screen(call: Invocation, stage: Admission, response: Response) -> (verdict: Verdict)
    ensures
        verdict == spec_screen(call, stage, response),
{
    match stage {
        Admission::Gate => match response {
            Response::Flag(true) => Verdict::Ask(
                Admission::AdminRole,
                Request::Lookup { record: Record::Guild(call.guild), field: Field::AdminRole },
            ),
            Response::Flag(false) => Verdict::Refuse(Outcome::NotConfigured, Notice::NotConfigured),
            _ => Verdict::Fail(Outcome::ExternalCallFailure),
        },
        Admission::AdminRole => match response {
            Response::Id(role) => if call.actor == call.owner {
                Verdict::Pass
            } else {
                Verdict::Ask(
                    Admission::Membership,
                    Request::HasRole { guild: call.guild, user: call.actor, role },
                )
            },
            _ => Verdict::Fail(Outcome::ExternalCallFailure),
        },
        Admission::Membership => match response {
            Response::Flag(true) => Verdict::Pass,
            Response::Flag(false) => Verdict::Refuse(
                Outcome::AuthorizationDenied,
                Notice::InsufficientRights,
            ),
            Response::Failed(Failure::NotFound) => Verdict::Fail(Outcome::ConfigurationError),
            _ => Verdict::Fail(Outcome::ExternalCallFailure),
        },
    }
}

} // verus!
