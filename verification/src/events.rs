//! What the engine does when the platform reports an event: a control was
//! pressed, a member left, a community came back into view.

use crate::commands::onboarding::{
    approve, configure, deny, spec_begin_approve, spec_begin_configure, spec_begin_deny,
    ApproveStage, ConfigureStage, DenyStage,
};
use crate::commands::ping::{ping, spec_begin_ping, PingStage};
use crate::commands::serves_guild;
use crate::commands::setup::{setup, spec_begin_setup, Proposal, SetupStage};
use crate::commands::Admission;
use crate::engine::{
    close, conclude, fail, finish_after, proceed, Deferral, Failure, Invocation, Outcome, Press,
    Progress, Request, Response,
};
use crate::identifiers::Component;
use crate::models::{ChannelInfo, Member};
use crate::notices::Notice;
use crate::platform::{member_access, MEMBER_ACCESS};
use crate::store::{Field, Record};
use crate::world::{
    listener_starts_within_bound, rank, step_finishes_at_rank_zero, step_lowers_rank,
};
use vstd::prelude::*;

verus! {

/// Whether `i` is the first place at which `channels` lists the channel `id`.
pub open spec fn is_first(channels: Seq<ChannelInfo>, id: u64, i: int) -> bool {
    &&& 0 <= i < channels.len()
    &&& channels[i].id == id
    &&& forall|j: int| 0 <= j < i ==> (#[trigger] channels[j]).id != id
}

/// The first entry of `channels` for the channel `id`, if there is one.
pub open spec fn spec_find_channel(channels: Seq<ChannelInfo>, id: u64) -> Option<ChannelInfo> {
    if exists|i: int| is_first(channels, id, i) {
        Some(channels[choose|i: int| is_first(channels, id, i)])
    } else {
        None
    }
}

/// Looks a channel up in a listing.
pub fn find_channel(channels: &Vec<ChannelInfo>, id: u64) -> (found: Option<ChannelInfo>)
    ensures
        found == spec_find_channel(channels@, id),
{
    let mut i: usize = 0;
    while i < channels.len()
        invariant
            i <= channels.len(),
            forall|j: int| 0 <= j < i ==> (#[trigger] channels@[j]).id != id,
        decreases channels.len() - i,
    {
        if channels[i].id == id {
            let found = ChannelInfo { id: channels[i].id, name: channels[i].name.clone() };
            proof {
                assert(is_first(channels@, id, i as int));
                let k = choose|k: int| is_first(channels@, id, k);
                assert(is_first(channels@, id, k));
                if k < i {
                    assert(channels@[k].id != id);
                }
                if i < k {
                    assert(channels@[i as int].id != id);
                }
                assert(k == i);
                assert(found == channels@[i as int]);
            }
            return Some(found);
        }
        i += 1;
    }
    proof {
        assert forall|k: int| !is_first(channels@, id, k) by {
            if 0 <= k < channels@.len() {
                assert(channels@[k].id != id);
            }
        }
    }
    None
}

/// Tells whether a listing of roles holds the given role.
pub fn lists_role(roles: &Vec<u64>, role: u64) -> (listed: bool)
    ensures
        listed == roles@.contains(role),
{
    let mut i: usize = 0;
    while i < roles.len()
        invariant
            i <= roles.len(),
            forall|j: int| 0 <= j < i ==> roles@[j] != role,
        decreases roles.len() - i,
    {
        if roles[i] == role {
            assert(roles@[i as int] == role);
            return true;
        }
        i += 1;
    }
    false
}

/// The stages of asking the store whether a member is under verification.
#[derive(Clone, Copy, Debug, PartialEq, Eq, Structural)]
pub enum PendingStage {
    /// Asked whether a verification is recorded.
    Checking,
    /// Asked for the channel of the verification.
    Loading,
}

/// What is known of a member's verification.
#[derive(Clone, Debug, PartialEq, Eq)]
pub enum PendingValidation {
    /// Another question has to be asked first.
    Ask(PendingStage, Request),
    /// The member is under verification in the given channel, or is not
    /// under verification.
    Known(Option<u64>),
    /// The store did not answer.
    Fail,
}

/// The question that asking for a member's verification starts with.
pub open spec fn spec_begin_pending(guild: u64, user: u64) -> Request {
    Request::Exists { record: Record::Validation { guild, member: user }, field: Field::Channel }
}

/// The question that asking for a member's verification starts with.
#[verifier::when_used_as_spec(spec_begin_pending)]
pub fn begin_pending(guild: u64, user: u64) -> (request: Request)
    ensures
        request == spec_begin_pending(guild, user),
{
    Request::Exists { record: Record::Validation { guild, member: user }, field: Field::Channel }
}

/// One step of asking whether `user` is under verification in `guild`: no
/// record means no verification; a record is read for its channel.
pub open spec fn spec_pending_validation(
    guild: u64,
    user: u64,
    stage: PendingStage,
    response: Response,
) -> PendingValidation {
    match stage {
        PendingStage::Checking => match response {
            Response::Flag(true) => PendingValidation::Ask(
                PendingStage::Loading,
                Request::Lookup {
                    record: Record::Validation { guild, member: user },
                    field: Field::Channel,
                },
            ),
            Response::Flag(false) => PendingValidation::Known(None),
            _ => PendingValidation::Fail,
        },
        PendingStage::Loading => match response {
            Response::Id(channel) => PendingValidation::Known(Some(channel)),
            _ => PendingValidation::Fail,
        },
    }
}

/// Takes the question whether a member is under verification one step
/// further.
#[verifier::when_used_as_spec(spec_pending_validation)]
pub fn pending_validation(guild: u64, user: u64, stage: PendingStage, response: Response) -> (known:
    PendingValidation)
    ensures
        known == spec_pending_validation(guild, user, stage, response),
{
    match stage {
        PendingStage::Checking => match response {
            Response::Flag(true) => PendingValidation::Ask(
                PendingStage::Loading,
                Request::Lookup {
                    record: Record::Validation { guild, member: user },
                    field: Field::Channel,
                },
            ),
            Response::Flag(false) => PendingValidation::Known(None),
            _ => PendingValidation::Fail,
        },
        PendingStage::Loading => match response {
            Response::Id(channel) => PendingValidation::Known(Some(channel)),
            _ => PendingValidation::Fail,
        },
    }
}

/// The stages of archiving a verification channel.
#[derive(Clone, Copy, Debug, PartialEq, Eq)]
pub enum ArchiveStage {
    /// Acknowledging the press.
    Acknowledging,
    /// Asked whether the channel is a verification channel.
    Resolving,
    /// Asked whose verification channel it is.
    LoadingOwner,
    /// Asking whether that member is under verification.
    Pending { user: u64, stage: PendingStage },
    /// Forgetting the verification.
    Detaching { channel: u64 },
    /// Listing the channels of the community, to find `target`.
    Listing { target: u64, attached: bool },
    /// Renaming the channel.
    Renaming { attached: bool },
}

/// The first stage of archiving, and the request it starts with.
pub open spec fn spec_begin_archive() -> (Progress<ArchiveStage>, Request) {
    proceed(ArchiveStage::Acknowledging, Request::Acknowledge { deferral: Deferral::Update })
}

/// One step of archiving the channel in which a control was pressed.
///
/// Where the channel is the verification channel of a member who is under
/// verification, the verification is forgotten, the channel is marked as
/// archived, and archiving is disabled on the message that holds the
/// control. Where no verification is recorded any more, only the marking
/// takes place. A channel that the community does not list is a violated
/// invariant.
pub open spec fn spec_onboarding_archive(press: Press, stage: ArchiveStage, response: Response) -> (
    Progress<ArchiveStage>,
    Request,
) {
    match stage {
        ArchiveStage::Acknowledging => match response {
            Response::Done => proceed(
                ArchiveStage::Resolving,
                Request::Exists { record: Record::ChannelToUser, field: Field::Id(press.channel) },
            ),
            _ => fail(),
        },
        ArchiveStage::Resolving => match response {
            Response::Flag(true) => proceed(
                ArchiveStage::LoadingOwner,
                Request::Lookup { record: Record::ChannelToUser, field: Field::Id(press.channel) },
            ),
            Response::Flag(false) => proceed(
                ArchiveStage::Listing { target: press.channel, attached: false },
                Request::FetchChannels { guild: press.guild },
            ),
            _ => fail(),
        },
        ArchiveStage::LoadingOwner => match response {
            Response::Id(user) => proceed(
                ArchiveStage::Pending { user, stage: PendingStage::Checking },
                begin_pending(press.guild, user),
            ),
            _ => fail(),
        },
        ArchiveStage::Pending { user, stage } => match pending_validation(
            press.guild,
            user,
            stage,
            response,
        ) {
            PendingValidation::Ask(stage, request) => proceed(
                ArchiveStage::Pending { user, stage },
                request,
            ),
            PendingValidation::Known(Some(channel)) => proceed(
                ArchiveStage::Detaching { channel },
                Request::EndSession { guild: press.guild, member: user, channel },
            ),
            PendingValidation::Known(None) => proceed(
                ArchiveStage::Listing { target: press.channel, attached: false },
                Request::FetchChannels { guild: press.guild },
            ),
            PendingValidation::Fail => fail(),
        },
        ArchiveStage::Detaching { channel } => match response {
            Response::Done => proceed(
                ArchiveStage::Listing { target: channel, attached: true },
                Request::FetchChannels { guild: press.guild },
            ),
            _ => fail(),
        },
        ArchiveStage::Listing { target, attached } => match response {
            Response::Channels(channels) => match spec_find_channel(channels@, target) {
                Some(info) => proceed(
                    ArchiveStage::Renaming { attached },
                    Request::RenameChannel { channel: target, current: info.name },
                ),
                None => close(Outcome::InvariantViolation),
            },
            _ => fail(),
        },
        ArchiveStage::Renaming { attached } => match response {
            Response::Done => if attached {
                conclude(Outcome::Completed, Request::DisableArchive)
            } else {
                close(Outcome::Completed)
            },
            _ => fail(),
        },
    }
}

/// Takes the archiving of a verification channel one step further.
pub fn onboarding_archive(press: &Press, stage: ArchiveStage, response: Response) -> (next: (
    Progress<ArchiveStage>,
    Request,
))
    ensures
        next == spec_onboarding_archive(*press, stage, response),
{
    match stage {
        ArchiveStage::Acknowledging => match response {
            Response::Done => proceed(
                ArchiveStage::Resolving,
                Request::Exists { record: Record::ChannelToUser, field: Field::Id(press.channel) },
            ),
            _ => fail(),
        },
        ArchiveStage::Resolving => match response {
            Response::Flag(true) => proceed(
                ArchiveStage::LoadingOwner,
                Request::Lookup { record: Record::ChannelToUser, field: Field::Id(press.channel) },
            ),
            Response::Flag(false) => proceed(
                ArchiveStage::Listing { target: press.channel, attached: false },
                Request::FetchChannels { guild: press.guild },
            ),
            _ => fail(),
        },
        ArchiveStage::LoadingOwner => match response {
            Response::Id(user) => proceed(
                ArchiveStage::Pending { user, stage: PendingStage::Checking },
                begin_pending(press.guild, user),
            ),
            _ => fail(),
        },
        ArchiveStage::Pending { user, stage } => match pending_validation(
            press.guild,
            user,
            stage,
            response,
        ) {
            PendingValidation::Ask(stage, request) => proceed(
                ArchiveStage::Pending { user, stage },
                request,
            ),
            PendingValidation::Known(Some(channel)) => proceed(
                ArchiveStage::Detaching { channel },
                Request::EndSession { guild: press.guild, member: user, channel },
            ),
            PendingValidation::Known(None) => proceed(
                ArchiveStage::Listing { target: press.channel, attached: false },
                Request::FetchChannels { guild: press.guild },
            ),
            PendingValidation::Fail => fail(),
        },
        ArchiveStage::Detaching { channel } => match response {
            Response::Done => proceed(
                ArchiveStage::Listing { target: channel, attached: true },
                Request::FetchChannels { guild: press.guild },
            ),
            _ => fail(),
        },
        ArchiveStage::Listing { target, attached } => match response {
            Response::Channels(channels) => match find_channel(&channels, target) {
                Some(info) => proceed(
                    ArchiveStage::Renaming { attached },
                    Request::RenameChannel { channel: target, current: info.name },
                ),
                None => close(Outcome::InvariantViolation),
            },
            _ => fail(),
        },
        ArchiveStage::Renaming { attached } => match response {
            Response::Done => if attached {
                conclude(Outcome::Completed, Request::DisableArchive)
            } else {
                close(Outcome::Completed)
            },
            _ => fail(),
        },
    }
}

/// The stages of deleting a verification channel.
#[derive(Clone, Copy, Debug, PartialEq, Eq)]
pub enum DeleteStage {
    /// Asked whether the channel is a verification channel.
    Resolving,
    /// Asked whose verification channel it is.
    LoadingOwner,
    /// Asking whether that member is under verification.
    Pending { user: u64, stage: PendingStage },
    /// Forgetting the verification.
    Detaching,
}

/// The first stage of deleting, and the question it starts with.
pub open spec fn spec_begin_delete(press: Press) -> (Progress<DeleteStage>, Request) {
    proceed(
        DeleteStage::Resolving,
        Request::Exists { record: Record::ChannelToUser, field: Field::Id(press.channel) },
    )
}

/// The request that deletes the channel of a press and ends the deletion.
pub open spec fn spec_delete_channel(press: Press) -> (Progress<DeleteStage>, Request) {
    conclude(Outcome::Completed, Request::DeleteChannel { channel: press.channel })
}

/// One step of deleting the channel in which a control was pressed: a
/// verification that is still recorded for the channel is forgotten first;
/// the channel is deleted in any case.
pub open spec fn spec_onboarding_delete(press: Press, stage: DeleteStage, response: Response) -> (
    Progress<DeleteStage>,
    Request,
) {
    match stage {
        DeleteStage::Resolving => match response {
            Response::Flag(true) => proceed(
                DeleteStage::LoadingOwner,
                Request::Lookup { record: Record::ChannelToUser, field: Field::Id(press.channel) },
            ),
            Response::Flag(false) => spec_delete_channel(press),
            _ => fail(),
        },
        DeleteStage::LoadingOwner => match response {
            Response::Id(user) => proceed(
                DeleteStage::Pending { user, stage: PendingStage::Checking },
                begin_pending(press.guild, user),
            ),
            _ => fail(),
        },
        DeleteStage::Pending { user, stage } => match pending_validation(
            press.guild,
            user,
            stage,
            response,
        ) {
            PendingValidation::Ask(stage, request) => proceed(
                DeleteStage::Pending { user, stage },
                request,
            ),
            PendingValidation::Known(Some(channel)) => proceed(
                DeleteStage::Detaching,
                Request::EndSession { guild: press.guild, member: user, channel },
            ),
            PendingValidation::Known(None) => spec_delete_channel(press),
            PendingValidation::Fail => fail(),
        },
        DeleteStage::Detaching => match response {
            Response::Done => spec_delete_channel(press),
            _ => fail(),
        },
    }
}

/// Takes the deletion of a verification channel one step further.
pub fn onboarding_delete(press: &Press, stage: DeleteStage, response: Response) -> (next: (
    Progress<DeleteStage>,
    Request,
))
    ensures
        next == spec_onboarding_delete(*press, stage, response),
{
    match stage {
        DeleteStage::Resolving => match response {
            Response::Flag(true) => proceed(
                DeleteStage::LoadingOwner,
                Request::Lookup { record: Record::ChannelToUser, field: Field::Id(press.channel) },
            ),
            Response::Flag(false) => conclude(
                Outcome::Completed,
                Request::DeleteChannel { channel: press.channel },
            ),
            _ => fail(),
        },
        DeleteStage::LoadingOwner => match response {
            Response::Id(user) => proceed(
                DeleteStage::Pending { user, stage: PendingStage::Checking },
                begin_pending(press.guild, user),
            ),
            _ => fail(),
        },
        DeleteStage::Pending { user, stage } => match pending_validation(
            press.guild,
            user,
            stage,
            response,
        ) {
            PendingValidation::Ask(stage, request) => proceed(
                DeleteStage::Pending { user, stage },
                request,
            ),
            PendingValidation::Known(Some(channel)) => proceed(
                DeleteStage::Detaching,
                Request::EndSession { guild: press.guild, member: user, channel },
            ),
            PendingValidation::Known(None) => conclude(
                Outcome::Completed,
                Request::DeleteChannel { channel: press.channel },
            ),
            PendingValidation::Fail => fail(),
        },
        DeleteStage::Detaching => match response {
            Response::Done => conclude(
                Outcome::Completed,
                Request::DeleteChannel { channel: press.channel },
            ),
            _ => fail(),
        },
    }
}

/// The stages of telling staff that a member under verification has left.
#[derive(Clone, Copy, Debug, PartialEq, Eq)]
pub enum RemovalStage {
    /// Asking whether the member is under verification.
    Pending(PendingStage),
}

/// The first stage of handling a member's leaving, and the question it
/// starts with.
pub open spec fn spec_begin_member_removal(guild: u64, user: Member) -> (
    Progress<RemovalStage>,
    Request,
) {
    proceed(RemovalStage::Pending(PendingStage::Checking), begin_pending(guild, user.id))
}

/// One step of handling a member's leaving: where the member is under
/// verification, staff are told in the verification channel and offered to
/// archive or delete it; the verification itself stays recorded.
pub open spec fn spec_onboarding_member_removal(
    guild: u64,
    user: Member,
    stage: RemovalStage,
    response: Response,
) -> (Progress<RemovalStage>, Request) {
    match stage {
        RemovalStage::Pending(stage) => match pending_validation(guild, user.id, stage, response) {
            PendingValidation::Ask(stage, request) => proceed(RemovalStage::Pending(stage), request),
            PendingValidation::Known(Some(channel)) => conclude(
                Outcome::Completed,
                Request::Send { channel, notice: Notice::MemberLeft { profile: user } },
            ),
            PendingValidation::Known(None) => close(Outcome::Ignored),
            PendingValidation::Fail => fail(),
        },
    }
}

/// Takes the handling of a member's leaving one step further.
pub fn onboarding_member_removal(
    guild: u64,
    user: &Member,
    stage: RemovalStage,
    response: Response,
) -> (next: (Progress<RemovalStage>, Request))
    ensures
        next == spec_onboarding_member_removal(guild, *user, stage, response),
{
    match stage {
        RemovalStage::Pending(stage) => match pending_validation(guild, user.id, stage, response) {
            PendingValidation::Ask(stage, request) => proceed(RemovalStage::Pending(stage), request),
            PendingValidation::Known(Some(channel)) => {
                let member = Member {
                    id: user.id,
                    name: user.name.clone(),
                    discriminator: user.discriminator,
                };
                conclude(
                    Outcome::Completed,
                    Request::Send { channel, notice: Notice::MemberLeft { profile: member } },
                )
            },
            PendingValidation::Known(None) => close(Outcome::Ignored),
            PendingValidation::Fail => fail(),
        },
    }
}

/// Takes the handling of a member's leaving one step further.
pub fn guild_member_removal(guild: u64, user: &Member, stage: RemovalStage, response: Response) -> (next:
    (Progress<RemovalStage>, Request))
    ensures
        next == spec_onboarding_member_removal(guild, *user, stage, response),
{
    onboarding_member_removal(guild, user, stage, response)
}

/// The stages of opening a verification for a member.
#[derive(Clone, Debug, PartialEq, Eq)]
pub enum VerificationStage {
    /// Listing the roles of the community.
    ListingRoles,
    /// Asked for the role to notify.
    LoadingNotifyRole { roles: Vec<u64> },
    /// Asked for the category of verification channels.
    LoadingCategory { notify_role: u64 },
    /// Creating the channel.
    Creating { notify_role: u64 },
    /// Letting the member into the channel.
    Granting { channel: u64, notify_role: u64 },
    /// Recording the verification.
    Recording { channel: u64, notify_role: u64 },
    /// Asking the member to wait.
    Notifying,
}

/// What opening a verification has come to.
#[derive(Clone, Debug, PartialEq, Eq)]
pub enum Verification {
    /// Another request has to be made first.
    Ask(VerificationStage, Request),
    /// The verification is open.
    Open,
    /// The verification could not be opened.
    Fail(Outcome),
}

/// One step of opening a verification for `member` of `guild`.
///
/// The role to notify must be a role of the community; a role that is not
/// is an error of configuration. Then the channel is created in the
/// configured category, the member is allowed to view it, to write in it
/// and to read its history, the verification is recorded,
/// and the member is asked to wait while the role is called. Nothing is
/// recorded before the channel exists and the member has access to it.
pub open spec fn spec_setup_member_verification(
    guild: u64,
    member: Member,
    stage: VerificationStage,
    response: Response,
) -> Verification {
    match stage {
        VerificationStage::ListingRoles => match response {
            Response::Roles(roles) => Verification::Ask(
                VerificationStage::LoadingNotifyRole { roles },
                Request::Lookup { record: Record::Onboarding(guild), field: Field::NotifyRole },
            ),
            _ => Verification::Fail(Outcome::ExternalCallFailure),
        },
        VerificationStage::LoadingNotifyRole { roles } => match response {
            Response::Id(notify_role) => if roles@.contains(notify_role) {
                Verification::Ask(
                    VerificationStage::LoadingCategory { notify_role },
                    Request::Lookup {
                        record: Record::Guild(guild),
                        field: Field::ValidationCategory,
                    },
                )
            } else {
                Verification::Fail(Outcome::ConfigurationError)
            },
            _ => Verification::Fail(Outcome::ExternalCallFailure),
        },
        VerificationStage::LoadingCategory { notify_role } => match response {
            Response::Id(category) => Verification::Ask(
                VerificationStage::Creating { notify_role },
                Request::CreateChannel { guild, category, owner: member },
            ),
            _ => Verification::Fail(Outcome::ExternalCallFailure),
        },
        VerificationStage::Creating { notify_role } => match response {
            Response::Id(channel) => Verification::Ask(
                VerificationStage::Granting { channel, notify_role },
                Request::GrantAccess { channel, member: member.id, allow: MEMBER_ACCESS },
            ),
            _ => Verification::Fail(Outcome::ExternalCallFailure),
        },
        VerificationStage::Granting { channel, notify_role } => match response {
            Response::Done => Verification::Ask(
                VerificationStage::Recording { channel, notify_role },
                Request::BeginSession { guild, member: member.id, channel },
            ),
            _ => Verification::Fail(Outcome::ExternalCallFailure),
        },
        VerificationStage::Recording { channel, notify_role } => match response {
            Response::Done => Verification::Ask(
                VerificationStage::Notifying,
                Request::Send {
                    channel,
                    notice: new_member_wait_notice(member.id, notify_role),
                },
            ),
            _ => Verification::Fail(Outcome::ExternalCallFailure),
        },
        VerificationStage::Notifying => match response {
            Response::Id(_) => Verification::Open,
            _ => Verification::Fail(Outcome::ExternalCallFailure),
        },
    }
}

/// Takes the opening of a verification one step further.
pub fn setup_member_verification(
    guild: u64,
    member: &Member,
    stage: VerificationStage,
    response: Response,
) -> (next: Verification)
    ensures
        next == spec_setup_member_verification(guild, *member, stage, response),
{
    match stage {
        VerificationStage::ListingRoles => match response {
            Response::Roles(roles) => Verification::Ask(
                VerificationStage::LoadingNotifyRole { roles },
                Request::Lookup { record: Record::Onboarding(guild), field: Field::NotifyRole },
            ),
            _ => Verification::Fail(Outcome::ExternalCallFailure),
        },
        VerificationStage::LoadingNotifyRole { roles } => match response {
            Response::Id(notify_role) => if lists_role(&roles, notify_role) {
                Verification::Ask(
                    VerificationStage::LoadingCategory { notify_role },
                    Request::Lookup {
                        record: Record::Guild(guild),
                        field: Field::ValidationCategory,
                    },
                )
            } else {
                Verification::Fail(Outcome::ConfigurationError)
            },
            _ => Verification::Fail(Outcome::ExternalCallFailure),
        },
        VerificationStage::LoadingCategory { notify_role } => match response {
            Response::Id(category) => {
                let owner = Member {
                    id: member.id,
                    name: member.name.clone(),
                    discriminator: member.discriminator,
                };
                Verification::Ask(
                    VerificationStage::Creating { notify_role },
                    Request::CreateChannel { guild, category, owner },
                )
            },
            _ => Verification::Fail(Outcome::ExternalCallFailure),
        },
        VerificationStage::Creating { notify_role } => match response {
            Response::Id(channel) => Verification::Ask(
                VerificationStage::Granting { channel, notify_role },
                Request::GrantAccess { channel, member: member.id, allow: member_access() },
            ),
            _ => Verification::Fail(Outcome::ExternalCallFailure),
        },
        VerificationStage::Granting { channel, notify_role } => match response {
            Response::Done => Verification::Ask(
                VerificationStage::Recording { channel, notify_role },
                Request::BeginSession { guild, member: member.id, channel },
            ),
            _ => Verification::Fail(Outcome::ExternalCallFailure),
        },
        VerificationStage::Recording { channel, notify_role } => match response {
            Response::Done => Verification::Ask(
                VerificationStage::Notifying,
                Request::Send {
                    channel,
                    notice: new_member_wait_notice(member.id, notify_role),
                },
            ),
            _ => Verification::Fail(Outcome::ExternalCallFailure),
        },
        VerificationStage::Notifying => match response {
            Response::Id(_) => Verification::Open,
            _ => Verification::Fail(Outcome::ExternalCallFailure),
        },
    }
}

/// What a member is told who asked to join: that the request is taken up,
/// or, where one is pending already, in which channel it is discussed.
pub open spec fn spec_reply_to_join_request(pending_validation_channel: Option<u64>) -> Notice {
    match pending_validation_channel {
        Some(channel) => Notice::AlreadyRequested { channel },
        None => Notice::RequestReceived,
    }
}

/// What a member is told who asked to join.
#[verifier::when_used_as_spec(spec_reply_to_join_request)]
pub fn reply_to_join_request(pending_validation_channel: Option<u64>) -> (notice: Notice)
    ensures
        notice == spec_reply_to_join_request(pending_validation_channel),
{
    match pending_validation_channel {
        Some(channel) => Notice::AlreadyRequested { channel },
        None => Notice::RequestReceived,
    }
}

/// What a new member is told in their verification channel.
pub open spec fn spec_new_member_wait_notice(member: u64, notify_role: u64) -> Notice {
    Notice::Wait { member, notify_role }
}

/// What a new member is told in their verification channel.
#[verifier::when_used_as_spec(spec_new_member_wait_notice)]
pub fn new_member_wait_notice(member: u64, notify_role: u64) -> (notice: Notice)
    ensures
        notice == spec_new_member_wait_notice(member, notify_role),
{
    Notice::Wait { member, notify_role }
}

/// The instructions that stand in the welcome channel.
pub open spec fn spec_welcome_instructions() -> Notice {
    Notice::WelcomeInstructions
}

/// The instructions that stand in the welcome channel.
#[verifier::when_used_as_spec(spec_welcome_instructions)]
pub fn welcome_instructions() -> (notice: Notice)
    ensures
        notice == spec_welcome_instructions(),
{
    Notice::WelcomeInstructions
}

/// The stages of taking up a member's request to join.
#[derive(Clone, Debug, PartialEq, Eq)]
pub enum StartStage {
    /// Acknowledging the press.
    Acknowledging,
    /// Asking whether the member is under verification already.
    Pending(PendingStage),
    /// Opening the verification.
    Verifying(VerificationStage),
}

/// The first stage of taking up a request to join, and the request it
/// starts with.
pub open spec fn spec_begin_start() -> (Progress<StartStage>, Request) {
    proceed(StartStage::Acknowledging, Request::Acknowledge { deferral: Deferral::EphemeralReply })
}

/// One step of taking up a member's request to join.
///
/// A member who is under verification already is pointed to their channel,
/// and nothing is created. For any other member a verification is opened,
/// and the member is told that the request is taken up.
pub open spec fn spec_onboarding_start(press: Press, stage: StartStage, response: Response) -> (
    Progress<StartStage>,
    Request,
) {
    match stage {
        StartStage::Acknowledging => match response {
            Response::Done => proceed(
                StartStage::Pending(PendingStage::Checking),
                begin_pending(press.guild, press.member.id),
            ),
            _ => fail(),
        },
        StartStage::Pending(stage) => match pending_validation(
            press.guild,
            press.member.id,
            stage,
            response,
        ) {
            PendingValidation::Ask(stage, request) => proceed(StartStage::Pending(stage), request),
            PendingValidation::Known(Some(channel)) => conclude(
                Outcome::Completed,
                Request::FollowUp { notice: reply_to_join_request(Some(channel)) },
            ),
            PendingValidation::Known(None) => proceed(
                StartStage::Verifying(VerificationStage::ListingRoles),
                Request::FetchRoles { guild: press.guild },
            ),
            PendingValidation::Fail => fail(),
        },
        StartStage::Verifying(stage) => match spec_setup_member_verification(
            press.guild,
            press.member,
            stage,
            response,
        ) {
            Verification::Ask(stage, request) => proceed(StartStage::Verifying(stage), request),
            Verification::Open => conclude(
                Outcome::Completed,
                Request::FollowUp { notice: reply_to_join_request(None) },
            ),
            Verification::Fail(outcome) => close(outcome),
        },
    }
}

/// Takes a member's request to join one step further.
pub fn onboarding_start(press: &Press, stage: StartStage, response: Response) -> (next: (
    Progress<StartStage>,
    Request,
))
    ensures
        next == spec_onboarding_start(*press, stage, response),
{
    match stage {
        StartStage::Acknowledging => match response {
            Response::Done => proceed(
                StartStage::Pending(PendingStage::Checking),
                begin_pending(press.guild, press.member.id),
            ),
            _ => fail(),
        },
        StartStage::Pending(stage) => match pending_validation(
            press.guild,
            press.member.id,
            stage,
            response,
        ) {
            PendingValidation::Ask(stage, request) => proceed(StartStage::Pending(stage), request),
            PendingValidation::Known(Some(channel)) => conclude(
                Outcome::Completed,
                Request::FollowUp { notice: reply_to_join_request(Some(channel)) },
            ),
            PendingValidation::Known(None) => proceed(
                StartStage::Verifying(VerificationStage::ListingRoles),
                Request::FetchRoles { guild: press.guild },
            ),
            PendingValidation::Fail => fail(),
        },
        StartStage::Verifying(stage) => match setup_member_verification(
            press.guild,
            &press.member,
            stage,
            response,
        ) {
            Verification::Ask(stage, request) => proceed(StartStage::Verifying(stage), request),
            Verification::Open => conclude(
                Outcome::Completed,
                Request::FollowUp { notice: reply_to_join_request(None) },
            ),
            Verification::Fail(outcome) => close(outcome),
        },
    }
}

/// The stages of looking after the instructions for newcomers.
#[derive(Clone, Copy, Debug, PartialEq, Eq)]
pub enum ReconcileStage {
    /// Asked whether the community is set up.
    Gate,
    /// Asked for the welcome channel.
    LoadingChannel,
    /// Asked whether a message with the instructions is recorded.
    Checking { channel: u64 },
    /// Asked for the recorded message.
    LoadingMessage { channel: u64 },
    /// Fetching the recorded message.
    Fetching { channel: u64 },
    /// Posting the instructions.
    Posting,
    /// Recording the new message.
    Recording,
}

/// How looking after the instructions starts: a community that has just
/// been joined is left alone; of any other it is asked whether it is set
/// up.
pub open spec fn spec_begin_guild_create(guild: u64, is_new: bool) -> (
    Progress<ReconcileStage>,
    Request,
) {
    if is_new {
        close(Outcome::Ignored)
    } else {
        proceed(ReconcileStage::Gate, serves_guild(guild))
    }
}

/// The request that posts the instructions in the welcome channel.
pub open spec fn spec_post_instructions(channel: u64) -> (Progress<ReconcileStage>, Request) {
    proceed(ReconcileStage::Posting, Request::Send { channel, notice: welcome_instructions() })
}

/// One step of looking after the instructions for newcomers.
///
/// The instructions are posted, and the new message recorded, where no
/// message is recorded or the platform reports that the recorded one is not
/// found. A message that is still there is left alone. Any other failure to
/// fetch the message ends the workflow as a failed call, and nothing is
/// posted.
pub open spec fn spec_guild_create(guild: u64, stage: ReconcileStage, response: Response) -> (
    Progress<ReconcileStage>,
    Request,
) {
    match stage {
        ReconcileStage::Gate => match response {
            Response::Flag(true) => proceed(
                ReconcileStage::LoadingChannel,
                Request::Lookup { record: Record::Guild(guild), field: Field::WelcomeChannel },
            ),
            Response::Flag(false) => close(Outcome::NotConfigured),
            _ => fail(),
        },
        ReconcileStage::LoadingChannel => match response {
            Response::Id(channel) => proceed(
                ReconcileStage::Checking { channel },
                Request::Exists { record: Record::Guild(guild), field: Field::WelcomeMessage },
            ),
            _ => fail(),
        },
        ReconcileStage::Checking { channel } => match response {
            Response::Flag(true) => proceed(
                ReconcileStage::LoadingMessage { channel },
                Request::Lookup { record: Record::Guild(guild), field: Field::WelcomeMessage },
            ),
            Response::Flag(false) => spec_post_instructions(channel),
            _ => fail(),
        },
        ReconcileStage::LoadingMessage { channel } => match response {
            Response::Id(message) => proceed(
                ReconcileStage::Fetching { channel },
                Request::FetchMessage { channel, message },
            ),
            _ => fail(),
        },
        ReconcileStage::Fetching { channel } => match response {
            Response::Done => close(Outcome::Completed),
            Response::Failed(Failure::NotFound) => spec_post_instructions(channel),
            _ => fail(),
        },
        ReconcileStage::Posting => match response {
            Response::Id(message) => proceed(
                ReconcileStage::Recording,
                Request::RecordWelcomeMessage { guild, message },
            ),
            _ => fail(),
        },
        ReconcileStage::Recording => match response {
            Response::Done => close(Outcome::Completed),
            _ => fail(),
        },
    }
}

/// Takes the care for the instructions one step further.
pub fn guild_create(guild: u64, stage: ReconcileStage, response: Response) -> (next: (
    Progress<ReconcileStage>,
    Request,
))
    ensures
        next == spec_guild_create(guild, stage, response),
{
    match stage {
        ReconcileStage::Gate => match response {
            Response::Flag(true) => proceed(
                ReconcileStage::LoadingChannel,
                Request::Lookup { record: Record::Guild(guild), field: Field::WelcomeChannel },
            ),
            Response::Flag(false) => close(Outcome::NotConfigured),
            _ => fail(),
        },
        ReconcileStage::LoadingChannel => match response {
            Response::Id(channel) => proceed(
                ReconcileStage::Checking { channel },
                Request::Exists { record: Record::Guild(guild), field: Field::WelcomeMessage },
            ),
            _ => fail(),
        },
        ReconcileStage::Checking { channel } => match response {
            Response::Flag(true) => proceed(
                ReconcileStage::LoadingMessage { channel },
                Request::Lookup { record: Record::Guild(guild), field: Field::WelcomeMessage },
            ),
            Response::Flag(false) => proceed(
                ReconcileStage::Posting,
                Request::Send { channel, notice: welcome_instructions() },
            ),
            _ => fail(),
        },
        ReconcileStage::LoadingMessage { channel } => match response {
            Response::Id(message) => proceed(
                ReconcileStage::Fetching { channel },
                Request::FetchMessage { channel, message },
            ),
            _ => fail(),
        },
        ReconcileStage::Fetching { channel } => match response {
            Response::Done => close(Outcome::Completed),
            Response::Failed(Failure::NotFound) => proceed(
                ReconcileStage::Posting,
                Request::Send { channel, notice: welcome_instructions() },
            ),
            _ => fail(),
        },
        ReconcileStage::Posting => match response {
            Response::Id(message) => proceed(
                ReconcileStage::Recording,
                Request::RecordWelcomeMessage { guild, message },
            ),
            _ => fail(),
        },
        ReconcileStage::Recording => match response {
            Response::Done => close(Outcome::Completed),
            _ => fail(),
        },
    }
}

/// A slash command.
#[derive(Clone, Copy, Debug, PartialEq, Eq)]
pub enum Command {
    Ping,
    Setup(Proposal),
    Configure { notify_role: u64 },
    Approve,
    Deny,
}

/// An interaction of a member with the engine, other than a slash command.
#[derive(Clone, Debug, PartialEq, Eq)]
pub enum Interaction {
    /// A control was pressed; `custom_id` is the name of the control.
    MessageComponent { press: Press, custom_id: String },
    /// Any other interaction.
    Other,
}

/// What the platform reports.
#[derive(Clone, Debug, PartialEq, Eq)]
pub enum Event {
    /// The connection is up.
    Ready,
    /// A member gave a slash command.
    SlashCommand { call: Invocation, command: Command },
    /// A community came into view: it was joined just now (`is_new`), or the
    /// connection to it was made again.
    GuildCreate { guild: u64, is_new: bool },
    /// A member left a community or was removed from it.
    GuildMemberRemoval { guild: u64, user: Member },
    /// A member interacted with a message.
    InteractionCreate { interaction: Interaction },
    /// Anything else.
    Other,
}

/// A workflow in progress: what it was started for, and where it stands.
#[derive(Clone, Debug, PartialEq, Eq)]
pub enum Workflow {
    /// Nothing is in progress.
    Idle,
    Ping { call: Invocation, progress: Progress<PingStage> },
    Setup { call: Invocation, proposal: Proposal, progress: Progress<SetupStage> },
    Configure { call: Invocation, notify_role: u64, progress: Progress<ConfigureStage> },
    Approve { call: Invocation, progress: Progress<ApproveStage> },
    Deny { call: Invocation, progress: Progress<DenyStage> },
    /// A control was pressed, and the store is asked whether the community
    /// is set up.
    Interaction { press: Press, component: Option<Component> },
    Archive { press: Press, progress: Progress<ArchiveStage> },
    Delete { press: Press, progress: Progress<DeleteStage> },
    Start { press: Press, progress: Progress<StartStage> },
    MemberRemoval { guild: u64, user: Member, progress: Progress<RemovalStage> },
    GuildCreate { guild: u64, progress: Progress<ReconcileStage> },
}

/// The workflow that has nothing to do, and its end.
pub open spec fn spec_idle(outcome: Outcome) -> (Workflow, Request) {
    (Workflow::Idle, Request::Finish(outcome))
}

/// What the press of a control leads to once the store has said whether
/// the community is set up. In a community that is not, nothing happens.
/// The three controls of onboarding start their workflows; any other
/// control, and a name that is no control of the engine, is ignored.
pub open spec fn spec_interaction_create(
    press: Press,
    component: Option<Component>,
    response: Response,
) -> (Workflow, Request) {
    match response {
        Response::Flag(true) => match component {
            Some(Component::OnboardingArchive) => {
                let (progress, request) = spec_begin_archive();
                (Workflow::Archive { press, progress }, request)
            },
            Some(Component::OnboardingDelete) => {
                let (progress, request) = spec_begin_delete(press);
                (Workflow::Delete { press, progress }, request)
            },
            Some(Component::OnboardingStart) => {
                let (progress, request) = spec_begin_start();
                (Workflow::Start { press, progress }, request)
            },
            _ => spec_idle(Outcome::Ignored),
        },
        Response::Flag(false) => spec_idle(Outcome::NotConfigured),
        _ => spec_idle(Outcome::ExternalCallFailure),
    }
}

/// Routes the press of a control.
pub fn interaction_create(press: Press, component: Option<Component>, response: Response) -> (next:
    (Workflow, Request))
    ensures
        next == spec_interaction_create(press, component, response),
{
    match response {
        Response::Flag(true) => match component {
            Some(Component::OnboardingArchive) => {
                let (progress, request) = proceed(
                    ArchiveStage::Acknowledging,
                    Request::Acknowledge { deferral: Deferral::Update },
                );
                (Workflow::Archive { press, progress }, request)
            },
            Some(Component::OnboardingDelete) => {
                let (progress, request) = proceed(
                    DeleteStage::Resolving,
                    Request::Exists {
                        record: Record::ChannelToUser,
                        field: Field::Id(press.channel),
                    },
                );
                (Workflow::Delete { press, progress }, request)
            },
            Some(Component::OnboardingStart) => {
                let (progress, request) = proceed(
                    StartStage::Acknowledging,
                    Request::Acknowledge { deferral: Deferral::EphemeralReply },
                );
                (Workflow::Start { press, progress }, request)
            },
            _ => (Workflow::Idle, Request::Finish(Outcome::Ignored)),
        },
        Response::Flag(false) => (Workflow::Idle, Request::Finish(Outcome::NotConfigured)),
        _ => (Workflow::Idle, Request::Finish(Outcome::ExternalCallFailure)),
    }
}

/// The workflow that an event starts, and its first request.
///
/// A slash command starts the workflow of that command. A community that
/// comes into view has its instructions for newcomers looked after. A
/// member's leaving is reported to staff where the member was under
/// verification. The press of a control is routed by the control's name.
/// Every other event is ignored.
pub open spec fn spec_listener(event: Event) -> (Workflow, Request) {
    match event {
        Event::SlashCommand { call, command } => match command {
            Command::Ping => {
                let (progress, request) = spec_begin_ping(call);
                (Workflow::Ping { call, progress }, request)
            },
            Command::Setup(proposal) => {
                let (progress, request) = spec_begin_setup(call);
                (Workflow::Setup { call, proposal, progress }, request)
            },
            Command::Configure { notify_role } => {
                let (progress, request) = spec_begin_configure(call);
                (Workflow::Configure { call, notify_role, progress }, request)
            },
            Command::Approve => {
                let (progress, request) = spec_begin_approve(call);
                (Workflow::Approve { call, progress }, request)
            },
            Command::Deny => {
                let (progress, request) = spec_begin_deny(call);
                (Workflow::Deny { call, progress }, request)
            },
        },
        Event::GuildCreate { guild, is_new } => {
            let (progress, request) = spec_begin_guild_create(guild, is_new);
            (Workflow::GuildCreate { guild, progress }, request)
        },
        Event::GuildMemberRemoval { guild, user } => {
            let (progress, request) = spec_begin_member_removal(guild, user);
            (Workflow::MemberRemoval { guild, user, progress }, request)
        },
        Event::InteractionCreate { interaction } => match interaction {
            Interaction::MessageComponent { press, custom_id } => (
                Workflow::Interaction { press, component: Component::named(custom_id@) },
                serves_guild(press.guild),
            ),
            Interaction::Other => spec_idle(Outcome::Ignored),
        },
        Event::Ready => spec_idle(Outcome::Ignored),
        Event::Other => spec_idle(Outcome::Ignored),
    }
}

/// Starts the workflow of an event. The workflow needs at most fourteen
/// answers, and asks for none exactly if there is nothing to do.
pub fn listener(event: Event) -> (start: (Workflow, Request))
    ensures
        start == spec_listener(event),
        rank(start.0) <= 14,
        start.1 is Finish <==> rank(start.0) == 0,
{
    proof {
        listener_starts_within_bound(event);
    }
    match event {
        Event::SlashCommand { call, command } => {
            let gate = serves_guild(call.guild);
            match command {
                Command::Ping => {
                    let (progress, request) = proceed(PingStage::Gate, gate);
                    (Workflow::Ping { call, progress }, request)
                },
                Command::Setup(proposal) => {
                    let (progress, request) = proceed(SetupStage::Gate, gate);
                    (Workflow::Setup { call, proposal, progress }, request)
                },
                Command::Configure { notify_role } => {
                    let (progress, request) = proceed(
                        ConfigureStage::Admission(Admission::Gate),
                        gate,
                    );
                    (Workflow::Configure { call, notify_role, progress }, request)
                },
                Command::Approve => {
                    let (progress, request) = proceed(ApproveStage::Admission(Admission::Gate), gate);
                    (Workflow::Approve { call, progress }, request)
                },
                Command::Deny => {
                    let (progress, request) = proceed(DenyStage::Admission(Admission::Gate), gate);
                    (Workflow::Deny { call, progress }, request)
                },
            }
        },
        Event::GuildCreate { guild, is_new } => {
            let (progress, request) = if is_new {
                close(Outcome::Ignored)
            } else {
                proceed(ReconcileStage::Gate, serves_guild(guild))
            };
            (Workflow::GuildCreate { guild, progress }, request)
        },
        Event::GuildMemberRemoval { guild, user } => {
            let (progress, request) = proceed(
                RemovalStage::Pending(PendingStage::Checking),
                begin_pending(guild, user.id),
            );
            (Workflow::MemberRemoval { guild, user, progress }, request)
        },
        Event::InteractionCreate { interaction } => match interaction {
            Interaction::MessageComponent { press, custom_id } => {
                let component = Component::from_custom_id(custom_id.as_str());
                let request = serves_guild(press.guild);
                (Workflow::Interaction { press, component }, request)
            },
            Interaction::Other => (Workflow::Idle, Request::Finish(Outcome::Ignored)),
        },
        Event::Ready => (Workflow::Idle, Request::Finish(Outcome::Ignored)),
        Event::Other => (Workflow::Idle, Request::Finish(Outcome::Ignored)),
    }
}

/// The workflow after the outside has answered its request, and its next
/// request. A workflow that has ended stays ended and says so again.
pub open spec fn spec_step(workflow: Workflow, response: Response) -> (Workflow, Request) {
    match workflow {
        Workflow::Idle => spec_idle(Outcome::Ignored),
        Workflow::Ping { call, progress } => {
            let (progress, request) = match progress {
                Progress::Running(stage) => ping(call, stage, response),
                Progress::Closing(outcome) => finish_after(outcome, response),
                Progress::Closed(outcome) => close(outcome),
            };
            (Workflow::Ping { call, progress }, request)
        },
        Workflow::Setup { call, proposal, progress } => {
            let (progress, request) = match progress {
                Progress::Running(stage) => setup(call, proposal, stage, response),
                Progress::Closing(outcome) => finish_after(outcome, response),
                Progress::Closed(outcome) => close(outcome),
            };
            (Workflow::Setup { call, proposal, progress }, request)
        },
        Workflow::Configure { call, notify_role, progress } => {
            let (progress, request) = match progress {
                Progress::Running(stage) => configure(call, notify_role, stage, response),
                Progress::Closing(outcome) => finish_after(outcome, response),
                Progress::Closed(outcome) => close(outcome),
            };
            (Workflow::Configure { call, notify_role, progress }, request)
        },
        Workflow::Approve { call, progress } => {
            let (progress, request) = match progress {
                Progress::Running(stage) => approve(call, stage, response),
                Progress::Closing(outcome) => finish_after(outcome, response),
                Progress::Closed(outcome) => close(outcome),
            };
            (Workflow::Approve { call, progress }, request)
        },
        Workflow::Deny { call, progress } => {
            let (progress, request) = match progress {
                Progress::Running(stage) => deny(call, stage, response),
                Progress::Closing(outcome) => finish_after(outcome, response),
                Progress::Closed(outcome) => close(outcome),
            };
            (Workflow::Deny { call, progress }, request)
        },
        Workflow::Interaction { press, component } => spec_interaction_create(
            press,
            component,
            response,
        ),
        Workflow::Archive { press, progress } => {
            let (progress, request) = match progress {
                Progress::Running(stage) => spec_onboarding_archive(press, stage, response),
                Progress::Closing(outcome) => finish_after(outcome, response),
                Progress::Closed(outcome) => close(outcome),
            };
            (Workflow::Archive { press, progress }, request)
        },
        Workflow::Delete { press, progress } => {
            let (progress, request) = match progress {
                Progress::Running(stage) => spec_onboarding_delete(press, stage, response),
                Progress::Closing(outcome) => finish_after(outcome, response),
                Progress::Closed(outcome) => close(outcome),
            };
            (Workflow::Delete { press, progress }, request)
        },
        Workflow::Start { press, progress } => {
            let (progress, request) = match progress {
                Progress::Running(stage) => spec_onboarding_start(press, stage, response),
                Progress::Closing(outcome) => finish_after(outcome, response),
                Progress::Closed(outcome) => close(outcome),
            };
            (Workflow::Start { press, progress }, request)
        },
        Workflow::MemberRemoval { guild, user, progress } => {
            let (progress, request) = match progress {
                Progress::Running(stage) => spec_onboarding_member_removal(
                    guild,
                    user,
                    stage,
                    response,
                ),
                Progress::Closing(outcome) => finish_after(outcome, response),
                Progress::Closed(outcome) => close(outcome),
            };
            (Workflow::MemberRemoval { guild, user, progress }, request)
        },
        Workflow::GuildCreate { guild, progress } => {
            let (progress, request) = match progress {
                Progress::Running(stage) => spec_guild_create(guild, stage, response),
                Progress::Closing(outcome) => finish_after(outcome, response),
                Progress::Closed(outcome) => close(outcome),
            };
            (Workflow::GuildCreate { guild, progress }, request)
        },
    }
}

/// Resumes a workflow with the answer to its request. Every answer brings
/// a workflow that has not ended closer to its end, and the workflow asks
/// for nothing more exactly when it has ended.
pub fn step(workflow: Workflow, response: Response) -> (next: (Workflow, Request))
    ensures
        next == spec_step(workflow, response),
        rank(workflow) > 0 ==> rank(next.0) < rank(workflow),
        next.1 is Finish <==> rank(next.0) == 0,
{
    proof {
        if rank(workflow) > 0 {
            step_lowers_rank(workflow, response);
        }
        step_finishes_at_rank_zero(workflow, response);
    }
    match workflow {
        Workflow::Idle => (Workflow::Idle, Request::Finish(Outcome::Ignored)),
        Workflow::Ping { call, progress } => {
            let (progress, request) = match progress {
                Progress::Running(stage) => ping(call, stage, response),
                Progress::Closing(outcome) => finish_after(outcome, response),
                Progress::Closed(outcome) => close(outcome),
            };
            (Workflow::Ping { call, progress }, request)
        },
        Workflow::Setup { call, proposal, progress } => {
            let (progress, request) = match progress {
                Progress::Running(stage) => setup(call, proposal, stage, response),
                Progress::Closing(outcome) => finish_after(outcome, response),
                Progress::Closed(outcome) => close(outcome),
            };
            (Workflow::Setup { call, proposal, progress }, request)
        },
        Workflow::Configure { call, notify_role, progress } => {
            let (progress, request) = match progress {
                Progress::Running(stage) => configure(call, notify_role, stage, response),
                Progress::Closing(outcome) => finish_after(outcome, response),
                Progress::Closed(outcome) => close(outcome),
            };
            (Workflow::Configure { call, notify_role, progress }, request)
        },
        Workflow::Approve { call, progress } => {
            let (progress, request) = match progress {
                Progress::Running(stage) => approve(call, stage, response),
                Progress::Closing(outcome) => finish_after(outcome, response),
                Progress::Closed(outcome) => close(outcome),
            };
            (Workflow::Approve { call, progress }, request)
        },
        Workflow::Deny { call, progress } => {
            let (progress, request) = match progress {
                Progress::Running(stage) => deny(call, stage, response),
                Progress::Closing(outcome) => finish_after(outcome, response),
                Progress::Closed(outcome) => close(outcome),
            };
            (Workflow::Deny { call, progress }, request)
        },
        Workflow::Interaction { press, component } => interaction_create(press, component, response),
        Workflow::Archive { press, progress } => {
            let (progress, request) = match progress {
                Progress::Running(stage) => onboarding_archive(&press, stage, response),
                Progress::Closing(outcome) => finish_after(outcome, response),
                Progress::Closed(outcome) => close(outcome),
            };
            (Workflow::Archive { press, progress }, request)
        },
        Workflow::Delete { press, progress } => {
            let (progress, request) = match progress {
                Progress::Running(stage) => onboarding_delete(&press, stage, response),
                Progress::Closing(outcome) => finish_after(outcome, response),
                Progress::Closed(outcome) => close(outcome),
            };
            (Workflow::Delete { press, progress }, request)
        },
        Workflow::Start { press, progress } => {
            let (progress, request) = match progress {
                Progress::Running(stage) => onboarding_start(&press, stage, response),
                Progress::Closing(outcome) => finish_after(outcome, response),
                Progress::Closed(outcome) => close(outcome),
            };
            (Workflow::Start { press, progress }, request)
        },
        Workflow::MemberRemoval { guild, user, progress } => {
            let (progress, request) = match progress {
                Progress::Running(stage) => guild_member_removal(guild, &user, stage, response),
                Progress::Closing(outcome) => finish_after(outcome, response),
                Progress::Closed(outcome) => close(outcome),
            };
            (Workflow::MemberRemoval { guild, user, progress }, request)
        },
        Workflow::GuildCreate { guild, progress } => {
            let (progress, request) = match progress {
                Progress::Running(stage) => guild_create(guild, stage, response),
                Progress::Closing(outcome) => finish_after(outcome, response),
                Progress::Closed(outcome) => close(outcome),
            };
            (Workflow::GuildCreate { guild, progress }, request)
        },
    }
}

} // verus!
