//! The commands by which staff configure onboarding and decide on a
//! member's request.

use crate::commands::{screen, serves_guild, Admission, Verdict};
use crate::engine::{close, conclude, fail, proceed, Invocation, Outcome, Progress, Request, Response};
use crate::models::Member;
use crate::notices::Notice;
use crate::store::{Field, Record};
use vstd::prelude::*;

verus! {

/// The stages of an approval.
#[derive(Clone, Debug, PartialEq, Eq)]
pub enum ApproveStage {
    /// The caller is being admitted.
    Admission(Admission),
    /// Asked whether the channel is a verification channel.
    Resolving,
    /// Asked whose verification channel it is.
    LoadingOwner,
    /// Taking the member's access to the channel back.
    Revoking { member: u64 },
    /// Fetching the member.
    Fetching,
    /// Asked for the role of validated members.
    LoadingRole { profile: Member },
    /// Granting that role.
    Granting { profile: Member },
    /// Telling staff that the member is approved.
    Confirming { member: u64 },
    /// Asked for the channel of introductions.
    LoadingIntroductions { member: u64 },
    /// Asked for the channel in which roles are picked.
    LoadingRoleAssignment { member: u64, introductions_channel: u64 },
}

/// The first stage of an approval, and the question it starts with.
pub open spec fn spec_begin_approve(call: Invocation) -> (Progress<ApproveStage>, Request) {
    proceed(ApproveStage::Admission(Admission::Gate), serves_guild(call.guild))
}

/// One step of an approval.
///
/// Once the caller is admitted, the channel of the call must be the
/// verification channel of some member; if it is not, the caller is told so
/// and nothing else happens. Otherwise the member loses their access to the
/// channel and receives the role of validated members, staff are told, and,
/// where the community has a system channel, the member is welcomed there.
/// Any answer other than the one a stage waits for ends the approval as a
/// failed call.
pub open spec fn spec_approve(call: Invocation, stage: ApproveStage, response: Response) -> (
    Progress<ApproveStage>,
    Request,
) {
    match stage {
        ApproveStage::Admission(admission) => match screen(call, admission, response) {
            Verdict::Ask(admission, request) => proceed(ApproveStage::Admission(admission), request),
            Verdict::Pass => proceed(
                ApproveStage::Resolving,
                Request::Exists { record: Record::ChannelToUser, field: Field::Id(call.channel) },
            ),
            Verdict::Refuse(outcome, notice) => conclude(outcome, Request::Reply { notice }),
            Verdict::Fail(outcome) => close(outcome),
        },
        ApproveStage::Resolving => match response {
            Response::Flag(true) => proceed(
                ApproveStage::LoadingOwner,
                Request::Lookup { record: Record::ChannelToUser, field: Field::Id(call.channel) },
            ),
            Response::Flag(false) => conclude(
                Outcome::WrongChannel,
                Request::Reply { notice: Notice::ApprovalWrongChannel },
            ),
            _ => fail(),
        },
        ApproveStage::LoadingOwner => match response {
            Response::Id(member) => proceed(
                ApproveStage::Revoking { member },
                Request::RevokeAccess { channel: call.channel, member },
            ),
            _ => fail(),
        },
        ApproveStage::Revoking { member } => match response {
            Response::Done => proceed(
                ApproveStage::Fetching,
                Request::FetchMember { guild: call.guild, user: member },
            ),
            _ => fail(),
        },
        ApproveStage::Fetching => match response {
            Response::Profile(profile) => proceed(
                ApproveStage::LoadingRole { profile },
                Request::Lookup { record: Record::Guild(call.guild), field: Field::ValidatedRole },
            ),
            _ => fail(),
        },
        ApproveStage::LoadingRole { profile } => match response {
            Response::Id(role) => proceed(
                ApproveStage::Granting { profile },
                Request::GrantRole { guild: call.guild, member: profile.id, role },
            ),
            _ => fail(),
        },
        ApproveStage::Granting { profile } => match response {
            Response::Done => proceed(
                ApproveStage::Confirming { member: profile.id },
                Request::Reply { notice: Notice::Approved { profile } },
            ),
            _ => fail(),
        },
        ApproveStage::Confirming { member } => match response {
            Response::Done => if call.system_channel is Some {
                proceed(
                    ApproveStage::LoadingIntroductions { member },
                    Request::Lookup {
                        record: Record::Guild(call.guild),
                        field: Field::IntroductionsChannel,
                    },
                )
            } else {
                close(Outcome::Completed)
            },
            _ => fail(),
        },
        ApproveStage::LoadingIntroductions { member } => match response {
            Response::Id(introductions_channel) => proceed(
                ApproveStage::LoadingRoleAssignment { member, introductions_channel },
                Request::Lookup {
                    record: Record::Guild(call.guild),
                    field: Field::RoleAssignmentChannel,
                },
            ),
            _ => fail(),
        },
        ApproveStage::LoadingRoleAssignment { member, introductions_channel } => match response {
            Response::Id(role_assignment_channel) => match call.system_channel {
                Some(system_channel) => conclude(
                    Outcome::Completed,
                    Request::Send {
                        channel: system_channel,
                        notice: Notice::Welcome {
                            member,
                            role_assignment_channel,
                            introductions_channel,
                        },
                    },
                ),
                None => close(Outcome::Completed),
            },
            _ => fail(),
        },
    }
}

/// Takes an approval one step further.
#[verifier::when_used_as_spec(spec_approve)]
pub fn approve(call: Invocation, stage: ApproveStage, response: Response) -> (next: (
    Progress<ApproveStage>,
    Request,
))
    ensures
        next == spec_approve(call, stage, response),
{
    match stage {
        ApproveStage::Admission(admission) => match screen(call, admission, response) {
            Verdict::Ask(admission, request) => proceed(ApproveStage::Admission(admission), request),
            Verdict::Pass => proceed(
                ApproveStage::Resolving,
                Request::Exists { record: Record::ChannelToUser, field: Field::Id(call.channel) },
            ),
            Verdict::Refuse(outcome, notice) => conclude(outcome, Request::Reply { notice }),
            Verdict::Fail(outcome) => close(outcome),
        },
        ApproveStage::Resolving => match response {
            Response::Flag(true) => proceed(
                ApproveStage::LoadingOwner,
                Request::Lookup { record: Record::ChannelToUser, field: Field::Id(call.channel) },
            ),
            Response::Flag(false) => conclude(
                Outcome::WrongChannel,
                Request::Reply { notice: Notice::ApprovalWrongChannel },
            ),
            _ => fail(),
        },
        ApproveStage::LoadingOwner => match response {
            Response::Id(member) => proceed(
                ApproveStage::Revoking { member },
                Request::RevokeAccess { channel: call.channel, member },
            ),
            _ => fail(),
        },
        ApproveStage::Revoking { member } => match response {
            Response::Done => proceed(
                ApproveStage::Fetching,
                Request::FetchMember { guild: call.guild, user: member },
            ),
            _ => fail(),
        },
        ApproveStage::Fetching => match response {
            Response::Profile(profile) => proceed(
                ApproveStage::LoadingRole { profile },
                Request::Lookup { record: Record::Guild(call.guild), field: Field::ValidatedRole },
            ),
            _ => fail(),
        },
        ApproveStage::LoadingRole { profile } => match response {
            Response::Id(role) => {
                let member = profile.id;
                proceed(
                    ApproveStage::Granting { profile },
                    Request::GrantRole { guild: call.guild, member, role },
                )
            },
            _ => fail(),
        },
        ApproveStage::Granting { profile } => match response {
            Response::Done => {
                let member = profile.id;
                proceed(
                    ApproveStage::Confirming { member },
                    Request::Reply { notice: Notice::Approved { profile } },
                )
            },
            _ => fail(),
        },
        ApproveStage::Confirming { member } => match response {
            Response::Done => if call.system_channel.is_some() {
                proceed(
                    ApproveStage::LoadingIntroductions { member },
                    Request::Lookup {
                        record: Record::Guild(call.guild),
                        field: Field::IntroductionsChannel,
                    },
                )
            } else {
                close(Outcome::Completed)
            },
            _ => fail(),
        },
        ApproveStage::LoadingIntroductions { member } => match response {
            Response::Id(introductions_channel) => proceed(
                ApproveStage::LoadingRoleAssignment { member, introductions_channel },
                Request::Lookup {
                    record: Record::Guild(call.guild),
                    field: Field::RoleAssignmentChannel,
                },
            ),
            _ => fail(),
        },
        ApproveStage::LoadingRoleAssignment { member, introductions_channel } => match response {
            Response::Id(role_assignment_channel) => match call.system_channel {
                Some(system_channel) => conclude(
                    Outcome::Completed,
                    Request::Send {
                        channel: system_channel,
                        notice: Notice::Welcome {
                            member,
                            role_assignment_channel,
                            introductions_channel,
                        },
                    },
                ),
                None => close(Outcome::Completed),
            },
            _ => fail(),
        },
    }
}

/// The stages of a denial.
#[derive(Clone, Debug, PartialEq, Eq)]
pub enum DenyStage {
    /// The caller is being admitted.
    Admission(Admission),
    /// Asked whether the channel is a verification channel.
    Resolving,
    /// Asked whose verification channel it is.
    LoadingOwner,
    /// Fetching the member.
    Fetching,
    /// Removing the member from the community.
    Removing { profile: Member },
}

/// The first stage of a denial, and the question it starts with.
pub open spec fn spec_begin_deny(call: Invocation) -> (Progress<DenyStage>, Request) {
    proceed(DenyStage::Admission(Admission::Gate), serves_guild(call.guild))
}

/// One step of a denial.
///
/// Once the caller is admitted, the channel of the call must be the
/// verification channel of some member; if it is not, the caller is told so
/// and nothing else happens. Otherwise the member is removed from the
/// community and staff are told. Any answer other than the one a stage
/// waits for ends the denial as a failed call.
pub open spec fn spec_deny(call: Invocation, stage: DenyStage, response: Response) -> (
    Progress<DenyStage>,
    Request,
) {
    match stage {
        DenyStage::Admission(admission) => match screen(call, admission, response) {
            Verdict::Ask(admission, request) => proceed(DenyStage::Admission(admission), request),
            Verdict::Pass => proceed(
                DenyStage::Resolving,
                Request::Exists { record: Record::ChannelToUser, field: Field::Id(call.channel) },
            ),
            Verdict::Refuse(outcome, notice) => conclude(outcome, Request::Reply { notice }),
            Verdict::Fail(outcome) => close(outcome),
        },
        DenyStage::Resolving => match response {
            Response::Flag(true) => proceed(
                DenyStage::LoadingOwner,
                Request::Lookup { record: Record::ChannelToUser, field: Field::Id(call.channel) },
            ),
            Response::Flag(false) => conclude(
                Outcome::WrongChannel,
                Request::Reply { notice: Notice::DenialWrongChannel },
            ),
            _ => fail(),
        },
        DenyStage::LoadingOwner => match response {
            Response::Id(member) => proceed(
                DenyStage::Fetching,
                Request::FetchMember { guild: call.guild, user: member },
            ),
            _ => fail(),
        },
        DenyStage::Fetching => match response {
            Response::Profile(profile) => proceed(
                DenyStage::Removing { profile },
                Request::Kick { guild: call.guild, member: profile.id },
            ),
            _ => fail(),
        },
        DenyStage::Removing { profile } => match response {
            Response::Done => conclude(
                Outcome::Completed,
                Request::Reply { notice: Notice::Denied { profile } },
            ),
            _ => fail(),
        },
    }
}

/// Takes a denial one step further.
#[verifier::when_used_as_spec(spec_deny)]
pub fn deny(call: Invocation, stage: DenyStage, response: Response) -> (next: (
    Progress<DenyStage>,
    Request,
))
    ensures
        next == spec_deny(call, stage, response),
{
    match stage {
        DenyStage::Admission(admission) => match screen(call, admission, response) {
            Verdict::Ask(admission, request) => proceed(DenyStage::Admission(admission), request),
            Verdict::Pass => proceed(
                DenyStage::Resolving,
                Request::Exists { record: Record::ChannelToUser, field: Field::Id(call.channel) },
            ),
            Verdict::Refuse(outcome, notice) => conclude(outcome, Request::Reply { notice }),
            Verdict::Fail(outcome) => close(outcome),
        },
        DenyStage::Resolving => match response {
            Response::Flag(true) => proceed(
                DenyStage::LoadingOwner,
                Request::Lookup { record: Record::ChannelToUser, field: Field::Id(call.channel) },
            ),
            Response::Flag(false) => conclude(
                Outcome::WrongChannel,
                Request::Reply { notice: Notice::DenialWrongChannel },
            ),
            _ => fail(),
        },
        DenyStage::LoadingOwner => match response {
            Response::Id(member) => proceed(
                DenyStage::Fetching,
                Request::FetchMember { guild: call.guild, user: member },
            ),
            _ => fail(),
        },
        DenyStage::Fetching => match response {
            Response::Profile(profile) => {
                let member = profile.id;
                proceed(DenyStage::Removing { profile }, Request::Kick { guild: call.guild, member })
            },
            _ => fail(),
        },
        DenyStage::Removing { profile } => match response {
            Response::Done => conclude(
                Outcome::Completed,
                Request::Reply { notice: Notice::Denied { profile } },
            ),
            _ => fail(),
        },
    }
}

/// The stages of recording the role to notify.
#[derive(Clone, Copy, Debug, PartialEq, Eq)]
pub enum ConfigureStage {
    /// The caller is being admitted.
    Admission(Admission),
    /// Recording the role.
    Saving,
}

/// The first stage of recording the role to notify, and the question it
/// starts with.
pub open spec fn spec_begin_configure(call: Invocation) -> (Progress<ConfigureStage>, Request) {
    proceed(ConfigureStage::Admission(Admission::Gate), serves_guild(call.guild))
}

/// One step of recording the role that is notified when a member asks to
/// join. Once the caller is admitted the role is recorded, and the caller is
/// told which role it is.
pub open spec fn spec_configure(
    call: Invocation,
    notify_role: u64,
    stage: ConfigureStage,
    response: Response,
) -> (Progress<ConfigureStage>, Request) {
    match stage {
        ConfigureStage::Admission(admission) => match screen(call, admission, response) {
            Verdict::Ask(admission, request) => proceed(
                ConfigureStage::Admission(admission),
                request,
            ),
            Verdict::Pass => proceed(
                ConfigureStage::Saving,
                Request::SetNotifyRole { guild: call.guild, role: notify_role },
            ),
            Verdict::Refuse(outcome, notice) => conclude(outcome, Request::Reply { notice }),
            Verdict::Fail(outcome) => close(outcome),
        },
        ConfigureStage::Saving => match response {
            Response::Done => conclude(
                Outcome::Completed,
                Request::Reply { notice: Notice::NotifyRoleSet { role: notify_role } },
            ),
            _ => fail(),
        },
    }
}

/// Takes the recording of the role to notify one step further.
#[verifier::when_used_as_spec(spec_configure)]
pub fn configure(
    call: Invocation,
    notify_role: u64,
    stage: ConfigureStage,
    response: Response,
) -> (next: (Progress<ConfigureStage>, Request))
    ensures
        next == spec_configure(call, notify_role, stage, response),
{
    match stage {
        ConfigureStage::Admission(admission) => match screen(call, admission, response) {
            Verdict::Ask(admission, request) => proceed(
                ConfigureStage::Admission(admission),
                request,
            ),
            Verdict::Pass => proceed(
                ConfigureStage::Saving,
                Request::SetNotifyRole { guild: call.guild, role: notify_role },
            ),
            Verdict::Refuse(outcome, notice) => conclude(outcome, Request::Reply { notice }),
            Verdict::Fail(outcome) => close(outcome),
        },
        ConfigureStage::Saving => match response {
            Response::Done => conclude(
                Outcome::Completed,
                Request::Reply { notice: Notice::NotifyRoleSet { role: notify_role } },
            ),
            _ => fail(),
        },
    }
}

} // verus!
