//! The vocabulary in which a workflow and the outside world talk.
//!
//! A workflow hands out a [`Request`]; whoever drives it performs the
//! request against the store or the platform and resumes the workflow with
//! the [`Response`]. The last request of every workflow is
//! [`Request::Finish`].

use crate::models::{Channel, ChannelInfo, GuildConfiguration, Member, Role};
use crate::notices::Notice;
use crate::store::{Field, Record, StoreCommand, Value};
use vstd::prelude::*;

verus! {

/// Why a call to the outside failed.
#[derive(Clone, Copy, Debug, PartialEq, Eq, Structural)]
pub enum Failure {
    /// The platform reports that what was asked for does not exist.
    NotFound,
    /// Anything else: the call was refused, timed out, or could not be made.
    Other,
}

/// How a workflow ended.
#[derive(Clone, Copy, Debug, PartialEq, Eq, Structural)]
pub enum Outcome {
    /// The workflow did what it was started for.
    Completed,
    /// There was nothing to do.
    Ignored,
    /// The community has not been set up.
    NotConfigured,
    /// The community is set up already and no new setup was asked for.
    AlreadyConfigured,
    /// The caller has no right to the command.
    AuthorizationDenied,
    /// The command was given outside a verification channel.
    WrongChannel,
    /// A configured value is missing or of the wrong kind.
    ConfigurationError,
    /// A call to the store or to the platform failed.
    ExternalCallFailure,
    /// A record points at something that the platform does not have.
    InvariantViolation,
}

/// What the outside answers to a request.
#[derive(Clone, Debug, PartialEq, Eq)]
pub enum Response {
    /// The request was carried out and there is nothing to report.
    Done,
    /// The answer to a yes-or-no question.
    Flag(bool),
    /// An identifier: one read from the store, or that of a channel or
    /// message just created.
    Id(u64),
    /// A member of the community.
    Profile(Member),
    /// The roles of a community.
    Roles(Vec<u64>),
    /// The channels of a community.
    Channels(Vec<ChannelInfo>),
    /// The request could not be carried out.
    Failed(Failure),
}

/// How the press of a control is acknowledged before it is worked on.
#[derive(Clone, Copy, Debug, PartialEq, Eq, Structural)]
pub enum Deferral {
    /// The message that holds the control will be edited later.
    Update,
    /// A reply that only the member sees will follow.
    EphemeralReply,
}

/// What a workflow asks of the outside.
#[derive(Clone, Debug, PartialEq, Eq)]
pub enum Request {
    /// Read a field as a flag; an absent field reads as `false`.
    Flag { record: Record, field: Field },
    /// Read a field as an identifier; an absent field is a failure.
    Lookup { record: Record, field: Field },
    /// Ask whether a field is present.
    Exists { record: Record, field: Field },
    /// Record that `member` of `guild` is under verification in `channel`.
    BeginSession { guild: u64, member: u64, channel: u64 },
    /// Forget the verification of `member` of `guild` in `channel`.
    EndSession { guild: u64, member: u64, channel: u64 },
    /// Record the configuration of a community.
    SaveConfiguration { guild: u64, configuration: GuildConfiguration },
    /// Record the role to notify of new requests.
    SetNotifyRole { guild: u64, role: u64 },
    /// Record the message that holds the instructions for newcomers.
    RecordWelcomeMessage { guild: u64, message: u64 },
    /// Ask whether a user holds a role.
    HasRole { guild: u64, user: u64, role: u64 },
    /// Fetch a member of a community.
    FetchMember { guild: u64, user: u64 },
    /// List the roles of a community.
    FetchRoles { guild: u64 },
    /// List the channels of a community.
    FetchChannels { guild: u64 },
    /// Fetch a message, to learn whether it still exists.
    FetchMessage { channel: u64, message: u64 },
    /// Acknowledge the press of a control.
    Acknowledge { deferral: Deferral },
    /// Create the text channel in which `owner` will be verified, in the
    /// given category and under the name that `member_channel_name` gives.
    /// The answer holds the channel's id.
    CreateChannel { guild: u64, category: u64, owner: Member },
    /// Give a member the permissions `allow` in a channel.
    GrantAccess { channel: u64, member: u64, allow: u64 },
    /// Take back what `GrantAccess` gave.
    RevokeAccess { channel: u64, member: u64 },
    /// Give a member a role.
    GrantRole { guild: u64, member: u64, role: u64 },
    /// Remove a member from the community, for the reason `DENIAL_REASON`.
    Kick { guild: u64, member: u64 },
    /// Rename a channel to what `archived_name` makes of `current`, the
    /// name it has now.
    RenameChannel { channel: u64, current: String },
    /// Delete a channel.
    DeleteChannel { channel: u64 },
    /// Answer the command that started the workflow with the message of
    /// the notice.
    Reply { notice: Notice },
    /// Answer the press that started the workflow, after its
    /// acknowledgement, with the message of the notice.
    FollowUp { notice: Notice },
    /// Post the message of the notice in a channel. The answer holds the
    /// message's id.
    Send { channel: u64, notice: Notice },
    /// Give the message whose control was pressed the controls of
    /// `archived_controls`: archiving disabled, deleting kept.
    DisableArchive,
    /// The workflow has ended.
    Finish(Outcome),
}

/// Where a workflow stands.
#[derive(Clone, Debug, PartialEq, Eq)]
pub enum Progress<S> {
    /// In one of the stages of its own.
    Running(S),
    /// Its last request is out; once that is done it ends as given.
    Closing(Outcome),
    /// It has ended.
    Closed(Outcome),
}

/// A slash command as it arrives: where, by whom, and who owns the place.
#[derive(Clone, Copy, Debug, PartialEq, Eq, Structural)]
pub struct Invocation {
    pub guild: u64,
    pub channel: u64,
    pub actor: u64,
    pub owner: u64,
    pub system_channel: Option<u64>,
}

/// The press of a control: where, and by whom.
#[derive(Clone, Debug, PartialEq, Eq)]
pub struct Press {
    pub guild: u64,
    pub channel: u64,
    pub member: Member,
}

/// Ends a workflow.
pub open spec fn spec_close<S>(outcome: Outcome) -> (Progress<S>, Request) {
    (Progress::Closed(outcome), Request::Finish(outcome))
}

/// Ends a workflow.
#[verifier::when_used_as_spec(spec_close)]
pub fn close<S>(outcome: Outcome) -> (next: (Progress<S>, Request))
    ensures
        next == spec_close::<S>(outcome),
{
    (Progress::Closed(outcome), Request::Finish(outcome))
}

/// Ends a workflow because the outside did not answer as it should.
pub open spec fn spec_fail<S>() -> (Progress<S>, Request) {
    spec_close(Outcome::ExternalCallFailure)
}

/// Ends a workflow because the outside did not answer as it should.
#[verifier::when_used_as_spec(spec_fail)]
pub fn fail<S>() -> (next: (Progress<S>, Request))
    ensures
        next == spec_fail::<S>(),
{
    close(Outcome::ExternalCallFailure)
}

/// Sends the last request of a workflow.
pub open spec fn spec_conclude<S>(outcome: Outcome, request: Request) -> (Progress<S>, Request) {
    (Progress::Closing(outcome), request)
}

/// Sends the last request of a workflow.
#[verifier::when_used_as_spec(spec_conclude)]
pub fn conclude<S>(outcome: Outcome, request: Request) -> (next: (Progress<S>, Request))
    ensures
        next == spec_conclude::<S>(outcome, request),
{
    (Progress::Closing(outcome), request)
}

/// Moves a workflow to its next stage.
pub open spec fn spec_proceed<S>(stage: S, request: Request) -> (Progress<S>, Request) {
    (Progress::Running(stage), request)
}

/// Moves a workflow to its next stage.
#[verifier::when_used_as_spec(spec_proceed)]
pub fn proceed<S>(stage: S, request: Request) -> (next: (Progress<S>, Request))
    ensures
        next == spec_proceed(stage, request),
{
    (Progress::Running(stage), request)
}

/// What becomes of a workflow whose last request has been answered: it
/// ends as planned if the request was carried out, and as a failed call if
/// it was not.
pub open spec fn spec_finish_after<S>(outcome: Outcome, response: Response) -> (
    Progress<S>,
    Request,
) {
    match response {
        Response::Done => spec_close(outcome),
        Response::Id(_) => spec_close(outcome),
        _ => spec_fail(),
    }
}

/// Ends a workflow whose last request has been answered.
#[verifier::when_used_as_spec(spec_finish_after)]
pub fn finish_after<S>(outcome: Outcome, response: Response) -> (next: (Progress<S>, Request))
    ensures
        next == spec_finish_after::<S>(outcome, response),
{
    match response {
        Response::Done => close(outcome),
        Response::Id(_) => close(outcome),
        _ => fail(),
    }
}

/// The writes that carry out a request. Requests that do not write to the
/// store have none.
pub open spec fn writes(request: Request) -> Seq<StoreCommand> {
    match request {
        Request::BeginSession { guild, member, channel } => seq![
            StoreCommand::Put {
                record: Record::Validation { guild, member },
                field: Field::Channel,
                value: Value::Id(channel),
            },
            StoreCommand::Put {
                record: Record::ChannelToUser,
                field: Field::Id(channel),
                value: Value::Id(member),
            },
            StoreCommand::Put {
                record: Record::UserToChannel,
                field: Field::Id(member),
                value: Value::Id(channel),
            },
        ],
        Request::EndSession { guild, member, channel } => seq![
            StoreCommand::Delete { record: Record::Validation { guild, member }, field: Field::Channel },
            StoreCommand::Delete { record: Record::UserToChannel, field: Field::Id(member) },
            StoreCommand::Delete { record: Record::ChannelToUser, field: Field::Id(channel) },
        ],
        Request::SaveConfiguration { guild, configuration } => save(guild, configuration),
        Request::SetNotifyRole { guild, role } => seq![
            StoreCommand::Put {
                record: Record::Onboarding(guild),
                field: Field::NotifyRole,
                value: Value::Id(role),
            },
        ],
        Request::RecordWelcomeMessage { guild, message } => seq![
            StoreCommand::Put {
                record: Record::Guild(guild),
                field: Field::WelcomeMessage,
                value: Value::Id(message),
            },
        ],
        _ => Seq::empty(),
    }
}

/// The write of one field of a configuration, if the field is there.
pub open spec fn save_field(guild: u64, field: Field, id: Option<u64>) -> Seq<StoreCommand> {
    match id {
        Some(id) => seq![
            StoreCommand::Put { record: Record::Guild(guild), field, value: Value::Id(id) },
        ],
        None => Seq::empty(),
    }
}

/// The writes that record a configuration: each field that is there, and
/// after all of them the flag that says whether the community is
/// configured.
pub open spec fn save(guild: u64, configuration: GuildConfiguration) -> Seq<StoreCommand> {
    save_field(guild, Field::AdminRole, role_id(configuration.admin_role))
        + save_field(guild, Field::ValidatedRole, role_id(configuration.validated_role))
        + save_field(
        guild,
        Field::IntroductionsChannel,
        channel_id(configuration.introductions_channel),
    ) + save_field(
        guild,
        Field::RoleAssignmentChannel,
        channel_id(configuration.role_assignment_channel),
    ) + save_field(guild, Field::ValidationCategory, channel_id(configuration.validation_category))
        + save_field(guild, Field::WelcomeChannel, channel_id(configuration.welcome_channel))
        + seq![
        StoreCommand::Put {
            record: Record::Guild(guild),
            field: Field::Configured,
            value: Value::Flag(configuration.configured),
        },
    ]
}

/// The id of a role that may be absent.
pub open spec fn role_id(role: Option<Role>) -> Option<u64> {
    match role {
        Some(role) => Some(role.id),
        None => None,
    }
}

/// The id of a channel that may be absent.
pub open spec fn channel_id(channel: Option<Channel>) -> Option<u64> {
    match channel {
        Some(channel) => Some(channel.id),
        None => None,
    }
}

fn push_field(commands: &mut Vec<StoreCommand>, guild: u64, field: Field, id: Option<u64>)
    ensures
        final(commands)@ == old(commands)@ + save_field(guild, field, id),
{
    match id {
        Some(id) => {
            commands.push(
                StoreCommand::Put { record: Record::Guild(guild), field, value: Value::Id(id) },
            );
        },
        None => {
            assert(commands@ =~= old(commands)@ + save_field(guild, field, None));
        },
    }
}

fn id_of_role(role: Option<Role>) -> (id: Option<u64>)
    ensures
        id == role_id(role),
{
    match role {
        Some(role) => Some(role.id),
        None => None,
    }
}

fn id_of_channel(channel: Option<Channel>) -> (id: Option<u64>)
    ensures
        id == channel_id(channel),
{
    match channel {
        Some(channel) => Some(channel.id),
        None => None,
    }
}

impl Request {
    /// The writes that carry out the request, in the order in which they
    /// are to be made.
    pub fn commands(&self) -> (commands: Vec<StoreCommand>)
        ensures
            commands@ == writes(*self),
    {
        let mut commands: Vec<StoreCommand> = Vec::new();
        match self {
            Request::BeginSession { guild, member, channel } => {
                commands.push(
                    StoreCommand::Put {
                        record: Record::Validation { guild: *guild, member: *member },
                        field: Field::Channel,
                        value: Value::Id(*channel),
                    },
                );
                commands.push(
                    StoreCommand::Put {
                        record: Record::ChannelToUser,
                        field: Field::Id(*channel),
                        value: Value::Id(*member),
                    },
                );
                commands.push(
                    StoreCommand::Put {
                        record: Record::UserToChannel,
                        field: Field::Id(*member),
                        value: Value::Id(*channel),
                    },
                );
            },
            Request::EndSession { guild, member, channel } => {
                commands.push(
                    StoreCommand::Delete {
                        record: Record::Validation { guild: *guild, member: *member },
                        field: Field::Channel,
                    },
                );
                commands.push(
                    StoreCommand::Delete { record: Record::UserToChannel, field: Field::Id(*member) },
                );
                commands.push(
                    StoreCommand::Delete { record: Record::ChannelToUser, field: Field::Id(*channel) },
                );
            },
            Request::SaveConfiguration { guild, configuration } => {
                let guild = *guild;
                push_field(&mut commands, guild, Field::AdminRole, id_of_role(configuration.admin_role));
                push_field(
                    &mut commands,
                    guild,
                    Field::ValidatedRole,
                    id_of_role(configuration.validated_role),
                );
                push_field(
                    &mut commands,
                    guild,
                    Field::IntroductionsChannel,
                    id_of_channel(configuration.introductions_channel),
                );
                push_field(
                    &mut commands,
                    guild,
                    Field::RoleAssignmentChannel,
                    id_of_channel(configuration.role_assignment_channel),
                );
                push_field(
                    &mut commands,
                    guild,
                    Field::ValidationCategory,
                    id_of_channel(configuration.validation_category),
                );
                push_field(
                    &mut commands,
                    guild,
                    Field::WelcomeChannel,
                    id_of_channel(configuration.welcome_channel),
                );
                commands.push(
                    StoreCommand::Put {
                        record: Record::Guild(guild),
                        field: Field::Configured,
                        value: Value::Flag(configuration.configured),
                    },
                );
            },
            Request::SetNotifyRole { guild, role } => {
                commands.push(
                    StoreCommand::Put {
                        record: Record::Onboarding(*guild),
                        field: Field::NotifyRole,
                        value: Value::Id(*role),
                    },
                );
            },
            Request::RecordWelcomeMessage { guild, message } => {
                commands.push(
                    StoreCommand::Put {
                        record: Record::Guild(*guild),
                        field: Field::WelcomeMessage,
                        value: Value::Id(*message),
                    },
                );
            },
            _ => {},
        }
        commands
    }
}

} // verus!
