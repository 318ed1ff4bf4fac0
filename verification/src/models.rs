//! What the engine knows of a community: its members, roles, channels and
//! the configuration an administrator gave it.

use crate::text::{decimal, decimal_string};
use vstd::prelude::*;
use vstd::string::*;

verus! {

/// A member as the platform describes them.
#[derive(Clone, Debug, PartialEq, Eq)]
pub struct Member {
    pub id: u64,
    pub name: String,
    pub discriminator: u16,
}

/// A role of the community.
#[derive(Clone, Copy, Debug, PartialEq, Eq, Structural)]
pub struct Role {
    pub id: u64,
}

/// The kinds of channel that the platform tells apart.
#[derive(Clone, Copy, Debug, PartialEq, Eq, Structural)]
pub enum ChannelKind {
    /// A channel of a community that holds messages or voice.
    Guild,
    /// A conversation with a single user.
    Private,
    /// A category that groups channels of a community.
    Category,
}

/// A channel together with its kind.
#[derive(Clone, Copy, Debug, PartialEq, Eq, Structural)]
pub struct Channel {
    pub id: u64,
    pub kind: ChannelKind,
}

/// A channel and its name, as listed by the platform.
#[derive(Clone, Debug, PartialEq, Eq)]
pub struct ChannelInfo {
    pub id: u64,
    pub name: String,
}

/// Why a proposed configuration is refused: the named channel is of the
/// wrong kind.
#[derive(Clone, Copy, Debug, PartialEq, Eq, Structural)]
pub enum ConfigurationError {
    IntroductionsChannel(u64),
    RoleAssignmentChannel(u64),
    ValidationCategory(u64),
    WelcomeChannel(u64),
}

impl ConfigurationError {
    /// The channel that was refused.
    pub open spec fn channel(self) -> u64 {
        match self {
            ConfigurationError::IntroductionsChannel(id) => id,
            ConfigurationError::RoleAssignmentChannel(id) => id,
            ConfigurationError::ValidationCategory(id) => id,
            ConfigurationError::WelcomeChannel(id) => id,
        }
    }

    /// What the message says before the channel's id.
    pub open spec fn opening(self) -> Seq<char> {
        match self {
            ConfigurationError::IntroductionsChannel(_) => "given introductions channel (id: "@,
            ConfigurationError::RoleAssignmentChannel(_) => "given role assignment channel (id: "@,
            ConfigurationError::ValidationCategory(_) => "given validation channel (id: "@,
            ConfigurationError::WelcomeChannel(_) => "given welcome channel (id: "@,
        }
    }

    /// What the message says after the channel's id.
    pub open spec fn closing(self) -> Seq<char> {
        match self {
            ConfigurationError::ValidationCategory(_) => ") is not a category channel"@,
            _ => ") is not a guild channel"@,
        }
    }

    /// The whole message.
    pub open spec fn message_text(self) -> Seq<char> {
        self.opening() + decimal(self.channel() as nat) + self.closing()
    }

    /// Describes the error for a log.
    pub fn message(&self) -> (text: String)
        ensures
            text@ == self.message_text(),
    {
        let (opening, id, closing) = match self {
            ConfigurationError::IntroductionsChannel(id) => (
                "given introductions channel (id: ",
                *id,
                ") is not a guild channel",
            ),
            ConfigurationError::RoleAssignmentChannel(id) => (
                "given role assignment channel (id: ",
                *id,
                ") is not a guild channel",
            ),
            ConfigurationError::ValidationCategory(id) => (
                "given validation channel (id: ",
                *id,
                ") is not a category channel",
            ),
            ConfigurationError::WelcomeChannel(id) => (
                "given welcome channel (id: ",
                *id,
                ") is not a guild channel",
            ),
        };
        let mut text = String::from_str(opening);
        text.append(decimal_string(id).as_str());
        text.append(closing);
        text
    }
}

/// The configuration of one community.
#[derive(Clone, Copy, Debug, PartialEq, Eq)]
pub struct GuildConfiguration {
    pub configured: bool,
    pub admin_role: Option<Role>,
    pub validated_role: Option<Role>,
    pub introductions_channel: Option<Channel>,
    pub role_assignment_channel: Option<Channel>,
    pub validation_category: Option<Channel>,
    pub welcome_channel: Option<Channel>,
}

/// The first of the four channels, in the order in which they are examined,
/// that is of the wrong kind.
pub open spec fn first_fault(
    introductions_channel: Channel,
    role_assignment_channel: Channel,
    validation_category: Channel,
    welcome_channel: Channel,
) -> Option<ConfigurationError> {
    if introductions_channel.kind != ChannelKind::Guild {
        Some(ConfigurationError::IntroductionsChannel(introductions_channel.id))
    } else if role_assignment_channel.kind != ChannelKind::Guild {
        Some(ConfigurationError::RoleAssignmentChannel(role_assignment_channel.id))
    } else if validation_category.kind != ChannelKind::Category {
        Some(ConfigurationError::ValidationCategory(validation_category.id))
    } else if welcome_channel.kind != ChannelKind::Guild {
        Some(ConfigurationError::WelcomeChannel(welcome_channel.id))
    } else {
        None
    }
}

impl GuildConfiguration {
    /// Every role and channel is present, and every channel is of the kind
    /// that its use asks for.
    pub open spec fn complete(self) -> bool {
        &&& self.admin_role is Some
        &&& self.validated_role is Some
        &&& self.introductions_channel matches Some(c) && c.kind == ChannelKind::Guild
        &&& self.role_assignment_channel matches Some(c) && c.kind == ChannelKind::Guild
        &&& self.validation_category matches Some(c) && c.kind == ChannelKind::Category
        &&& self.welcome_channel matches Some(c) && c.kind == ChannelKind::Guild
    }

    /// A configuration claims to be configured exactly when it is complete.
    pub open spec fn wf(self) -> bool {
        self.configured <==> self.complete()
    }

    /// The configuration that holds nothing.
    pub open spec fn unset() -> GuildConfiguration {
        GuildConfiguration {
            configured: false,
            admin_role: None,
            validated_role: None,
            introductions_channel: None,
            role_assignment_channel: None,
            validation_category: None,
            welcome_channel: None,
        }
    }

    /// The configured configuration made of the given roles and channels.
    pub open spec fn of(
        admin_role: Role,
        validated_role: Role,
        introductions_channel: Channel,
        role_assignment_channel: Channel,
        validation_category: Channel,
        welcome_channel: Channel,
    ) -> GuildConfiguration {
        GuildConfiguration {
            configured: true,
            admin_role: Some(admin_role),
            validated_role: Some(validated_role),
            introductions_channel: Some(introductions_channel),
            role_assignment_channel: Some(role_assignment_channel),
            validation_category: Some(validation_category),
            welcome_channel: Some(welcome_channel),
        }
    }

    /// Validates a proposed configuration. The channels are examined in the
    /// order introductions, role assignment, validation category, welcome;
    /// the first one of the wrong kind is reported.
    pub fn new(
        admin_role: Role,
        validated_role: Role,
        introductions_channel: Channel,
        role_assignment_channel: Channel,
        validation_category: Channel,
        welcome_channel: Channel,
    ) -> (result: Result<GuildConfiguration, ConfigurationError>)
        ensures
            match first_fault(
                introductions_channel,
                role_assignment_channel,
                validation_category,
                welcome_channel,
            ) {
                Some(fault) => result == Err::<GuildConfiguration, ConfigurationError>(fault),
                None => result == Ok::<GuildConfiguration, ConfigurationError>(
                    GuildConfiguration::of(
                        admin_role,
                        validated_role,
                        introductions_channel,
                        role_assignment_channel,
                        validation_category,
                        welcome_channel,
                    ),
                ),
            },
            result matches Ok(configuration) ==> configuration.wf() && configuration.configured,
    {
        let introductions_channel = match introductions_channel.kind {
            ChannelKind::Guild => Some(introductions_channel),
            _ => {
                return Err(ConfigurationError::IntroductionsChannel(introductions_channel.id));
            },
        };
        let role_assignment_channel = match role_assignment_channel.kind {
            ChannelKind::Guild => Some(role_assignment_channel),
            _ => {
                return Err(ConfigurationError::RoleAssignmentChannel(role_assignment_channel.id));
            },
        };
        let validation_category = match validation_category.kind {
            ChannelKind::Category => Some(validation_category),
            _ => {
                return Err(ConfigurationError::ValidationCategory(validation_category.id));
            },
        };
        let welcome_channel = match welcome_channel.kind {
            ChannelKind::Guild => Some(welcome_channel),
            _ => {
                return Err(ConfigurationError::WelcomeChannel(welcome_channel.id));
            },
        };
        Ok(
            GuildConfiguration {
                configured: true,
                admin_role: Some(admin_role),
                validated_role: Some(validated_role),
                introductions_channel,
                role_assignment_channel,
                validation_category,
                welcome_channel,
            },
        )
    }
}

impl Default for GuildConfiguration {
    fn default() -> (configuration: GuildConfiguration)
        ensures
            configuration == GuildConfiguration::unset(),
            configuration.wf(),
    {
        GuildConfiguration {
            configured: false,
            admin_role: None,
            validated_role: None,
            introductions_channel: None,
            role_assignment_channel: None,
            validation_category: None,
            welcome_channel: None,
        }
    }
}

} // verus!
