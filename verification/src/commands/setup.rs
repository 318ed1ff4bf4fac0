//! The command that sets a community up.

use crate::commands::serves_guild;
use crate::engine::{conclude, fail, proceed, Invocation, Outcome, Progress, Request, Response};
use crate::models::{first_fault, Channel, ConfigurationError, GuildConfiguration, Role};
use crate::notices::Notice;
use vstd::prelude::*;

verus! {

/// What an administrator proposes as the configuration of a community.
#[derive(Clone, Copy, Debug, PartialEq, Eq)]
pub struct Proposal {
    pub admin_role: Role,
    pub validated_role: Role,
    pub introductions_channel: Channel,
    pub role_assignment_channel: Channel,
    pub validation_category: Channel,
    pub welcome_channel: Channel,
    /// Whether a community that is set up already is to be set up anew.
    pub anew: Option<bool>,
}

impl Proposal {
    /// Whether the proposal asks for a new setup of a community that is set
    /// up already.
    pub open spec fn renews(self) -> bool {
        self.anew == Some(true)
    }

    /// The channel that makes the proposal unacceptable, if there is one.
    pub open spec fn fault(self) -> Option<ConfigurationError> {
        first_fault(
            self.introductions_channel,
            self.role_assignment_channel,
            self.validation_category,
            self.welcome_channel,
        )
    }

    /// The configuration that the proposal makes, where it is acceptable.
    pub open spec fn configuration(self) -> GuildConfiguration {
        GuildConfiguration::of(
            self.admin_role,
            self.validated_role,
            self.introductions_channel,
            self.role_assignment_channel,
            self.validation_category,
            self.welcome_channel,
        )
    }
}

/// The stages of a setup.
#[derive(Clone, Copy, Debug, PartialEq, Eq, Structural)]
pub enum SetupStage {
    /// Asked whether the community is set up.
    Gate,
    /// Recording the configuration.
    Saving,
}

/// The first stage of a setup, and the question it starts with.
pub open spec fn spec_begin_setup(call: Invocation) -> (Progress<SetupStage>, Request) {
    proceed(SetupStage::Gate, serves_guild(call.guild))
}

/// One step of a setup.
///
/// A community that is set up is left alone unless the proposal asks for a
/// new setup. A proposal with a channel of the wrong kind is refused, and
/// nothing is written. An acceptable proposal is recorded whole, and the
/// caller is told.
pub open spec fn spec_setup(
    call: Invocation,
    proposal: Proposal,
    stage: SetupStage,
    response: Response,
) -> (Progress<SetupStage>, Request) {
    match stage {
        SetupStage::Gate => match response {
            Response::Flag(serves) => if serves && !proposal.renews() {
                conclude(
                    Outcome::AlreadyConfigured,
                    Request::Reply { notice: Notice::AlreadyConfigured },
                )
            } else if proposal.fault() is Some {
                conclude(
                    Outcome::ConfigurationError,
                    Request::Reply { notice: Notice::IncorrectConfiguration },
                )
            } else {
                proceed(
                    SetupStage::Saving,
                    Request::SaveConfiguration {
                        guild: call.guild,
                        configuration: proposal.configuration(),
                    },
                )
            },
            _ => fail(),
        },
        SetupStage::Saving => match response {
            Response::Done => conclude(Outcome::Completed, Request::Reply { notice: Notice::AllSet }),
            _ => fail(),
        },
    }
}

/// Takes a setup one step further.
#[verifier::when_used_as_spec(spec_setup)]
pub fn setup(call: Invocation, proposal: Proposal, stage: SetupStage, response: Response) -> (next:
    (Progress<SetupStage>, Request))
    ensures
        next == spec_setup(call, proposal, stage, response),
{
    match stage {
        SetupStage::Gate => match response {
            Response::Flag(serves) => {
                let renews = match proposal.anew {
                    Some(anew) => anew,
                    None => false,
                };
                if serves && !renews {
                    return conclude(
                        Outcome::AlreadyConfigured,
                        Request::Reply { notice: Notice::AlreadyConfigured },
                    );
                }
                match GuildConfiguration::new(
                    proposal.admin_role,
                    proposal.validated_role,
                    proposal.introductions_channel,
                    proposal.role_assignment_channel,
                    proposal.validation_category,
                    proposal.welcome_channel,
                ) {
                    Ok(configuration) => proceed(
                        SetupStage::Saving,
                        Request::SaveConfiguration { guild: call.guild, configuration },
                    ),
                    Err(_) => conclude(
                        Outcome::ConfigurationError,
                        Request::Reply { notice: Notice::IncorrectConfiguration },
                    ),
                }
            },
            _ => fail(),
        },
        SetupStage::Saving => match response {
            Response::Done => conclude(Outcome::Completed, Request::Reply { notice: Notice::AllSet }),
            _ => fail(),
        },
    }
}

} // verus!
