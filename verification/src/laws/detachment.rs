//! Archiving a verification channel and then deleting it comes to the same
//! as deleting it at once.

use crate::engine::{Outcome, Press, Progress, Request, Response};
use crate::events::{
    spec_begin_pending, spec_listener, spec_step, ArchiveStage, DeleteStage, Event, Interaction,
    PendingStage, Workflow,
};
use crate::identifiers::{
    component_names_are_distinct, Component, ONBOARDING_ARCHIVE, ONBOARDING_DELETE,
};
use crate::sessions::{owner_of, session_of, session_requests_effect, without_session};
use crate::store::{flag_at, present, Field, Record, Store};
use crate::world::{answer, left, rank, run};
use vstd::prelude::*;

verus! {

/// The press of a control with the given name.
pub open spec fn pressed(press: Press, custom_id: String) -> Event {
    Event::InteractionCreate { interaction: Interaction::MessageComponent { press, custom_id } }
}

/// How a workflow ends whose last request goes to the platform.
pub open spec fn last_call(platform: Seq<Response>) -> Outcome {
    if platform.len() > 0 && (platform[0] is Done || platform[0] is Id) {
        Outcome::Completed
    } else {
        Outcome::ExternalCallFailure
    }
}

/// The question whether `channel` is a verification channel.
pub open spec fn asks_whether_owned(channel: u64) -> Request {
    Request::Exists { record: Record::ChannelToUser, field: Field::Id(channel) }
}

/// The question whose verification channel `channel` is.
pub open spec fn asks_for_owner(channel: u64) -> Request {
    Request::Lookup { record: Record::ChannelToUser, field: Field::Id(channel) }
}

/// The question in which channel `user` is under verification.
pub open spec fn asks_for_channel(guild: u64, user: u64) -> Request {
    Request::Lookup { record: Record::Validation { guild, member: user }, field: Field::Channel }
}

/// The store after the verification of `user` has been looked up and, if
/// it is recorded, forgotten; and whether the store answered as it should.
pub open spec fn detached_from(store: Store, guild: u64, user: u64) -> (Store, bool) {
    if present(store, Record::Validation { guild, member: user }, Field::Channel) {
        match session_of(store, guild, user) {
            Some(channel) => (without_session(store, guild, user, channel), true),
            None => (store, false),
        }
    } else {
        (store, true)
    }
}

/// The store after the verification to which `channel` belongs has been
/// looked up and, if it is recorded, forgotten; and whether the store
/// answered as it should.
pub open spec fn detached(store: Store, guild: u64, channel: u64) -> (Store, bool) {
    if present(store, Record::ChannelToUser, Field::Id(channel)) {
        match owner_of(store, channel) {
            Some(user) => detached_from(store, guild, user),
            None => (store, false),
        }
    } else {
        (store, true)
    }
}

/// The request that stands out at a stage of deleting.
pub open spec fn delete_asks(press: Press, stage: DeleteStage, request: Request) -> bool {
    match stage {
        DeleteStage::Resolving => request == asks_whether_owned(press.channel),
        DeleteStage::LoadingOwner => request == asks_for_owner(press.channel),
        DeleteStage::Pending { user, stage: PendingStage::Checking } => request
            == spec_begin_pending(press.guild, user),
        DeleteStage::Pending { user, stage: PendingStage::Loading } => request == asks_for_channel(
            press.guild,
            user,
        ),
        DeleteStage::Detaching => request is EndSession,
    }
}

/// The store that deleting leaves, and whether the store answered as it
/// should, from a stage on.
pub open spec fn delete_leaves(
    press: Press,
    stage: DeleteStage,
    request: Request,
    store: Store,
) -> (Store, bool) {
    match stage {
        DeleteStage::Resolving => detached(store, press.guild, press.channel),
        DeleteStage::LoadingOwner => match owner_of(store, press.channel) {
            Some(user) => detached_from(store, press.guild, user),
            None => (store, false),
        },
        DeleteStage::Pending { user, stage: PendingStage::Checking } => detached_from(
            store,
            press.guild,
            user,
        ),
        DeleteStage::Pending { user, stage: PendingStage::Loading } => match session_of(
            store,
            press.guild,
            user,
        ) {
            Some(channel) => (without_session(store, press.guild, user, channel), true),
            None => (store, false),
        },
        DeleteStage::Detaching => match request {
            Request::EndSession { guild, member, channel } => (
                without_session(store, guild, member, channel),
                true,
            ),
            _ => (store, false),
        },
    }
}

/// How deleting ends, given whether the store answered as it should.
pub open spec fn delete_ends(answered: bool, platform: Seq<Response>) -> Outcome {
    if answered {
        last_call(platform)
    } else {
        Outcome::ExternalCallFailure
    }
}

proof fn delete_closing_run(press: Press, request: Request, store: Store, platform: Seq<Response>)
    requires
        request is DeleteChannel,
    ensures
        ({
            let done = run(
                Workflow::Delete { press, progress: Progress::Closing(Outcome::Completed) },
                request,
                store,
                platform,
            );
            &&& done.store == store
            &&& done.outcome == last_call(platform)
        }),
{
    reveal_with_fuel(run, 2);
}

proof fn delete_run(
    press: Press,
    stage: DeleteStage,
    request: Request,
    store: Store,
    platform: Seq<Response>,
)
    requires
        delete_asks(press, stage, request),
    ensures
        ({
            let done = run(
                Workflow::Delete { press, progress: Progress::Running(stage) },
                request,
                store,
                platform,
            );
            let leaves = delete_leaves(press, stage, request, store);
            &&& done.store == leaves.0
            &&& done.outcome == delete_ends(leaves.1, platform)
        }),
    decreases rank(Workflow::Delete { press, progress: Progress::Running(stage) }),
{
    let workflow = Workflow::Delete { press, progress: Progress::Running(stage) };
    let response = answer(store, request, platform);
    let next = spec_step(workflow, response);
    if let Request::EndSession { guild, member, channel } = request {
        session_requests_effect(store, guild, member, channel);
        delete_closing_run(
            press,
            next.1,
            without_session(store, guild, member, channel),
            left(request, platform),
        );
    } else {
        match next.0 {
            Workflow::Delete { press: same, progress: Progress::Running(following) } => {
                delete_run(press, following, next.1, store, left(request, platform));
            },
            Workflow::Delete { press: same, progress: Progress::Closing(outcome) } => {
                delete_closing_run(press, next.1, store, left(request, platform));
            },
            _ => {
                reveal_with_fuel(run, 2);
            },
        }
    }
}

/// The store that the press of the control that deletes leaves, and how
/// the workflow ends.
pub open spec fn deletion(press: Press, store: Store, platform: Seq<Response>) -> (Store, Outcome) {
    if flag_at(store, Record::Guild(press.guild), Field::Configured) {
        let leaves = detached(store, press.guild, press.channel);
        (leaves.0, delete_ends(leaves.1, platform))
    } else {
        (store, Outcome::NotConfigured)
    }
}

/// The press of the control that deletes forgets the verification to which
/// the channel belongs, if one is recorded, and ends as the deletion of the
/// channel does.
pub proof fn deletion_run(press: Press, custom_id: String, store: Store, platform: Seq<Response>)
    requires
        custom_id@ == ONBOARDING_DELETE@,
    ensures
        ({
            let start = spec_listener(pressed(press, custom_id));
            let done = run(start.0, start.1, store, platform);
            (done.store, done.outcome) == deletion(press, store, platform)
        }),
{
    component_names_are_distinct(Component::OnboardingDelete);
    let start = spec_listener(pressed(press, custom_id));
    let response = answer(store, start.1, platform);
    let next = spec_step(start.0, response);
    if response == Response::Flag(true) {
        delete_run(press, DeleteStage::Resolving, next.1, store, left(start.1, platform));
    } else {
        reveal_with_fuel(run, 2);
    }
}

/// The request that stands out at a stage of archiving.
pub open spec fn archive_asks(press: Press, stage: ArchiveStage, request: Request) -> bool {
    match stage {
        ArchiveStage::Acknowledging => request is Acknowledge,
        ArchiveStage::Resolving => request == asks_whether_owned(press.channel),
        ArchiveStage::LoadingOwner => request == asks_for_owner(press.channel),
        ArchiveStage::Pending { user, stage: PendingStage::Checking } => request
            == spec_begin_pending(press.guild, user),
        ArchiveStage::Pending { user, stage: PendingStage::Loading } => request == asks_for_channel(
            press.guild,
            user,
        ),
        ArchiveStage::Detaching { .. } => request is EndSession,
        ArchiveStage::Listing { .. } => request is FetchChannels,
        ArchiveStage::Renaming { .. } => request is RenameChannel,
    }
}

/// The store that archiving leaves, from a stage on, if it gets as far as
/// the store.
pub open spec fn archive_leaves(
    press: Press,
    stage: ArchiveStage,
    request: Request,
    store: Store,
) -> Store {
    match stage {
        ArchiveStage::Acknowledging => detached(store, press.guild, press.channel).0,
        ArchiveStage::Resolving => detached(store, press.guild, press.channel).0,
        ArchiveStage::LoadingOwner => match owner_of(store, press.channel) {
            Some(user) => detached_from(store, press.guild, user).0,
            None => store,
        },
        ArchiveStage::Pending { user, stage: PendingStage::Checking } => detached_from(
            store,
            press.guild,
            user,
        ).0,
        ArchiveStage::Pending { user, stage: PendingStage::Loading } => match session_of(
            store,
            press.guild,
            user,
        ) {
            Some(channel) => without_session(store, press.guild, user, channel),
            None => store,
        },
        ArchiveStage::Detaching { .. } => match request {
            Request::EndSession { guild, member, channel } => without_session(
                store,
                guild,
                member,
                channel,
            ),
            _ => store,
        },
        ArchiveStage::Listing { .. } => store,
        ArchiveStage::Renaming { .. } => store,
    }
}

proof fn archive_closing_run(press: Press, outcome: Outcome, request: Request, store: Store, platform: Seq<Response>)
    requires
        request is DisableArchive,
    ensures
        run(Workflow::Archive { press, progress: Progress::Closing(outcome) }, request, store, platform).store
            == store,
{
    reveal_with_fuel(run, 2);
}

proof fn archive_run(
    press: Press,
    stage: ArchiveStage,
    request: Request,
    store: Store,
    platform: Seq<Response>,
)
    requires
        archive_asks(press, stage, request),
    ensures
        ({
            let done = run(
                Workflow::Archive { press, progress: Progress::Running(stage) },
                request,
                store,
                platform,
            );
            ||| done.store == archive_leaves(press, stage, request, store)
            ||| stage is Acknowledging && done.store == store
        }),
    decreases rank(Workflow::Archive { press, progress: Progress::Running(stage) }),
{
    let workflow = Workflow::Archive { press, progress: Progress::Running(stage) };
    let response = answer(store, request, platform);
    let next = spec_step(workflow, response);
    let after = if let Request::EndSession { guild, member, channel } = request {
        session_requests_effect(store, guild, member, channel);
        without_session(store, guild, member, channel)
    } else {
        store
    };
    match next.0 {
        Workflow::Archive { press: same, progress: Progress::Running(following) } => {
            archive_run(press, following, next.1, after, left(request, platform));
        },
        Workflow::Archive { press: same, progress: Progress::Closing(outcome) } => {
            archive_closing_run(press, outcome, next.1, after, left(request, platform));
        },
        _ => {
            reveal_with_fuel(run, 2);
        },
    }
}

/// The press of the control that archives leaves the store as it was, or,
/// in a community that is set up, as the press of the control that deletes
/// would leave it.
pub proof fn archiving_run(press: Press, custom_id: String, store: Store, platform: Seq<Response>)
    requires
        custom_id@ == ONBOARDING_ARCHIVE@,
    ensures
        ({
            let start = spec_listener(pressed(press, custom_id));
            let done = run(start.0, start.1, store, platform);
            ||| done.store == store
            ||| {
                &&& flag_at(store, Record::Guild(press.guild), Field::Configured)
                &&& done.store == detached(store, press.guild, press.channel).0
            }
        }),
{
    component_names_are_distinct(Component::OnboardingArchive);
    let start = spec_listener(pressed(press, custom_id));
    let response = answer(store, start.1, platform);
    let next = spec_step(start.0, response);
    if response == Response::Flag(true) {
        archive_run(press, ArchiveStage::Acknowledging, next.1, store, left(start.1, platform));
    } else {
        reveal_with_fuel(run, 2);
    }
}

/// Forgetting the verification to which a channel belongs a second time
/// changes nothing.
pub proof fn detaching_twice_is_detaching(store: Store, guild: u64, channel: u64)
    ensures
        ({
            let once = detached(store, guild, channel);
            let twice = detached(once.0, guild, channel);
            &&& twice.0 == once.0
            &&& twice.1 == once.1
            &&& flag_at(once.0, Record::Guild(guild), Field::Configured) == flag_at(
                store,
                Record::Guild(guild),
                Field::Configured,
            )
        }),
{
}

/// Archiving a channel and then deleting it comes to the same as deleting
/// it at once: whatever the platform answers while the channel is archived,
/// the deletion that follows leaves the store, and ends, as a deletion
/// without the archiving would.
pub proof fn archive_then_delete_is_delete(
    archiving: Press,
    deleting: Press,
    archive_id: String,
    delete_id: String,
    store: Store,
    during_archive: Seq<Response>,
    during_delete: Seq<Response>,
)
    requires
        archive_id@ == ONBOARDING_ARCHIVE@,
        delete_id@ == ONBOARDING_DELETE@,
        archiving.guild == deleting.guild,
        archiving.channel == deleting.channel,
    ensures
        ({
            let archive = spec_listener(pressed(archiving, archive_id));
            let delete = spec_listener(pressed(deleting, delete_id));
            let archived = run(archive.0, archive.1, store, during_archive);
            let both = run(delete.0, delete.1, archived.store, during_delete);
            let alone = run(delete.0, delete.1, store, during_delete);
            &&& both.store == alone.store
            &&& both.outcome == alone.outcome
        }),
{
    let archive = spec_listener(pressed(archiving, archive_id));
    let archived = run(archive.0, archive.1, store, during_archive);
    archiving_run(archiving, archive_id, store, during_archive);
    deletion_run(deleting, delete_id, store, during_delete);
    deletion_run(deleting, delete_id, archived.store, during_delete);
    detaching_twice_is_detaching(store, deleting.guild, deleting.channel);
}

} // verus!
