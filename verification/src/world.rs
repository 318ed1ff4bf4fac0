//! A model of the outside world, against which the workflows are judged.
//!
//! The store is modelled exactly: it answers every read from what it holds
//! and carries out every write. The platform is not modelled at all: its
//! answers are an arbitrary sequence, and a platform that has no answer left
//! fails every call.

use crate::commands::onboarding::{
    spec_approve, spec_configure, spec_deny, ApproveStage, ConfigureStage, DenyStage,
};
use crate::commands::ping::{spec_ping, PingStage};
use crate::commands::setup::{spec_setup, Proposal, SetupStage};
use crate::commands::Admission;
use crate::engine::{writes, Failure, Invocation, Outcome, Press, Progress, Request, Response};
use crate::events::{
    spec_guild_create, spec_interaction_create, spec_listener, spec_onboarding_archive,
    spec_onboarding_delete, spec_onboarding_member_removal, spec_onboarding_start, spec_step,
    ArchiveStage, Event, DeleteStage, PendingStage, ReconcileStage, RemovalStage, StartStage,
    VerificationStage, Workflow,
};
use crate::identifiers::Component;
use crate::models::Member;
use crate::store::{apply_all, flag_at, id_at, present, Store};
use vstd::prelude::*;

verus! {

/// Whether a request is addressed to the store.
pub open spec fn asks_store(request: Request) -> bool {
    match request {
        Request::Flag { .. } => true,
        Request::Lookup { .. } => true,
        Request::Exists { .. } => true,
        Request::BeginSession { .. } => true,
        Request::EndSession { .. } => true,
        Request::SaveConfiguration { .. } => true,
        Request::SetNotifyRole { .. } => true,
        Request::RecordWelcomeMessage { .. } => true,
        _ => false,
    }
}

/// What the store answers to a request addressed to it.
pub open spec fn store_answer(store: Store, request: Request) -> Response {
    match request {
        Request::Flag { record, field } => Response::Flag(flag_at(store, record, field)),
        Request::Exists { record, field } => Response::Flag(present(store, record, field)),
        Request::Lookup { record, field } => match id_at(store, record, field) {
            Some(id) => Response::Id(id),
            None => Response::Failed(Failure::Other),
        },
        _ => Response::Done,
    }
}

/// The answer that a request meets with: the store's, or the next one that
/// the platform has to give.
pub open spec fn answer(store: Store, request: Request, platform: Seq<Response>) -> Response {
    if asks_store(request) {
        store_answer(store, request)
    } else if platform.len() > 0 {
        platform[0]
    } else {
        Response::Failed(Failure::Other)
    }
}

/// The answers that the platform has left once a request has been answered.
pub open spec fn left(request: Request, platform: Seq<Response>) -> Seq<Response> {
    if asks_store(request) || platform.len() == 0 {
        platform
    } else {
        platform.skip(1)
    }
}

/// The store once a request has been carried out.
pub open spec fn store_after(store: Store, request: Request) -> Store {
    apply_all(store, writes(request))
}

/// An upper bound on the number of answers that admission still needs.
pub open spec fn admission_rank(stage: Admission) -> nat {
    match stage {
        Admission::Gate => 3,
        Admission::AdminRole => 2,
        Admission::Membership => 1,
    }
}

/// An upper bound on the number of answers that asking for a member's
/// verification still needs.
pub open spec fn pending_rank(stage: PendingStage) -> nat {
    match stage {
        PendingStage::Checking => 2,
        PendingStage::Loading => 1,
    }
}

/// An upper bound on the number of answers that opening a verification
/// still needs.
pub open spec fn verification_rank(stage: VerificationStage) -> nat {
    match stage {
        VerificationStage::ListingRoles => 7,
        VerificationStage::LoadingNotifyRole { .. } => 6,
        VerificationStage::LoadingCategory { .. } => 5,
        VerificationStage::Creating { .. } => 4,
        VerificationStage::Granting { .. } => 3,
        VerificationStage::Recording { .. } => 2,
        VerificationStage::Notifying => 1,
    }
}

/// The rank of a workflow that stands as `progress` says, where `running`
/// is the rank of the stage of its own that it may be in.
pub open spec fn progress_rank<S>(progress: Progress<S>, running: nat) -> nat {
    match progress {
        Progress::Running(_) => running,
        Progress::Closing(_) => 1,
        Progress::Closed(_) => 0,
    }
}

/// The rank of a stage of an approval.
pub open spec fn approve_rank(stage: ApproveStage) -> nat {
    match stage {
        ApproveStage::Admission(admission) => 11 + admission_rank(admission),
        ApproveStage::Resolving => 11,
        ApproveStage::LoadingOwner => 10,
        ApproveStage::Revoking { .. } => 9,
        ApproveStage::Fetching => 8,
        ApproveStage::LoadingRole { .. } => 7,
        ApproveStage::Granting { .. } => 6,
        ApproveStage::Confirming { .. } => 5,
        ApproveStage::LoadingIntroductions { .. } => 4,
        ApproveStage::LoadingRoleAssignment { .. } => 3,
    }
}

/// The rank of a stage of a denial.
pub open spec fn deny_rank(stage: DenyStage) -> nat {
    match stage {
        DenyStage::Admission(admission) => 6 + admission_rank(admission),
        DenyStage::Resolving => 6,
        DenyStage::LoadingOwner => 5,
        DenyStage::Fetching => 4,
        DenyStage::Removing { .. } => 3,
    }
}

/// The rank of a stage of archiving.
pub open spec fn archive_rank(stage: ArchiveStage) -> nat {
    match stage {
        ArchiveStage::Acknowledging => 10,
        ArchiveStage::Resolving => 9,
        ArchiveStage::LoadingOwner => 8,
        ArchiveStage::Pending { stage, .. } => 5 + pending_rank(stage),
        ArchiveStage::Detaching { .. } => 5,
        ArchiveStage::Listing { .. } => 4,
        ArchiveStage::Renaming { .. } => 3,
    }
}

/// The rank of a stage of deleting.
pub open spec fn delete_rank(stage: DeleteStage) -> nat {
    match stage {
        DeleteStage::Resolving => 6,
        DeleteStage::LoadingOwner => 5,
        DeleteStage::Pending { stage, .. } => 2 + pending_rank(stage),
        DeleteStage::Detaching => 2,
    }
}

/// The rank of a stage of taking up a request to join.
pub open spec fn start_rank(stage: StartStage) -> nat {
    match stage {
        StartStage::Acknowledging => 12,
        StartStage::Pending(stage) => 9 + pending_rank(stage),
        StartStage::Verifying(stage) => 1 + verification_rank(stage),
    }
}

/// The rank of a stage of looking after the instructions.
pub open spec fn reconcile_rank(stage: ReconcileStage) -> nat {
    match stage {
        ReconcileStage::Gate => 8,
        ReconcileStage::LoadingChannel => 7,
        ReconcileStage::Checking { .. } => 6,
        ReconcileStage::LoadingMessage { .. } => 5,
        ReconcileStage::Fetching { .. } => 4,
        ReconcileStage::Posting => 3,
        ReconcileStage::Recording => 2,
    }
}

/// The rank of a ping.
pub open spec fn ping_progress_rank(progress: Progress<PingStage>) -> nat {
    progress_rank(progress, 2)
}

/// The rank of a setup.
pub open spec fn setup_progress_rank(progress: Progress<SetupStage>) -> nat {
    match progress {
        Progress::Running(SetupStage::Gate) => 3,
        _ => progress_rank(progress, 2),
    }
}

/// The rank of recording the role to notify.
pub open spec fn configure_progress_rank(progress: Progress<ConfigureStage>) -> nat {
    match progress {
        Progress::Running(ConfigureStage::Admission(admission)) => 2 + admission_rank(admission),
        _ => progress_rank(progress, 2),
    }
}

/// The rank of an approval.
pub open spec fn approve_progress_rank(progress: Progress<ApproveStage>) -> nat {
    match progress {
        Progress::Running(stage) => approve_rank(stage),
        _ => progress_rank(progress, 0),
    }
}

/// The rank of a denial.
pub open spec fn deny_progress_rank(progress: Progress<DenyStage>) -> nat {
    match progress {
        Progress::Running(stage) => deny_rank(stage),
        _ => progress_rank(progress, 0),
    }
}

/// The rank of archiving.
pub open spec fn archive_progress_rank(progress: Progress<ArchiveStage>) -> nat {
    match progress {
        Progress::Running(stage) => archive_rank(stage),
        _ => progress_rank(progress, 0),
    }
}

/// The rank of deleting.
pub open spec fn delete_progress_rank(progress: Progress<DeleteStage>) -> nat {
    match progress {
        Progress::Running(stage) => delete_rank(stage),
        _ => progress_rank(progress, 0),
    }
}

/// The rank of taking up a request to join.
pub open spec fn start_progress_rank(progress: Progress<StartStage>) -> nat {
    match progress {
        Progress::Running(stage) => start_rank(stage),
        _ => progress_rank(progress, 0),
    }
}

/// The rank of handling a member's leaving.
pub open spec fn removal_progress_rank(progress: Progress<RemovalStage>) -> nat {
    match progress {
        Progress::Running(RemovalStage::Pending(stage)) => 1 + pending_rank(stage),
        _ => progress_rank(progress, 0),
    }
}

/// The rank of looking after the instructions.
pub open spec fn reconcile_progress_rank(progress: Progress<ReconcileStage>) -> nat {
    match progress {
        Progress::Running(stage) => reconcile_rank(stage),
        _ => progress_rank(progress, 0),
    }
}

/// An upper bound on the number of answers that a workflow still needs
/// before it ends. A workflow of rank 0 has ended.
pub open spec fn rank(workflow: Workflow) -> nat {
    match workflow {
        Workflow::Idle => 0,
        Workflow::Ping { progress, .. } => ping_progress_rank(progress),
        Workflow::Setup { progress, .. } => setup_progress_rank(progress),
        Workflow::Configure { progress, .. } => configure_progress_rank(progress),
        Workflow::Approve { progress, .. } => approve_progress_rank(progress),
        Workflow::Deny { progress, .. } => deny_progress_rank(progress),
        Workflow::Interaction { .. } => 14,
        Workflow::Archive { progress, .. } => archive_progress_rank(progress),
        Workflow::Delete { progress, .. } => delete_progress_rank(progress),
        Workflow::Start { progress, .. } => start_progress_rank(progress),
        Workflow::MemberRemoval { progress, .. } => removal_progress_rank(progress),
        Workflow::GuildCreate { progress, .. } => reconcile_progress_rank(progress),
    }
}

proof fn approve_lowers_rank(call: Invocation, stage: ApproveStage, response: Response)
    ensures
        approve_progress_rank(spec_approve(call, stage, response).0) < approve_rank(stage),
{
}

proof fn deny_lowers_rank(call: Invocation, stage: DenyStage, response: Response)
    ensures
        deny_progress_rank(spec_deny(call, stage, response).0) < deny_rank(stage),
{
}

proof fn archive_lowers_rank(press: Press, stage: ArchiveStage, response: Response)
    ensures
        archive_progress_rank(spec_onboarding_archive(press, stage, response).0) < archive_rank(
            stage,
        ),
{
}

proof fn delete_lowers_rank(press: Press, stage: DeleteStage, response: Response)
    ensures
        delete_progress_rank(spec_onboarding_delete(press, stage, response).0) < delete_rank(stage),
{
}

proof fn start_lowers_rank(press: Press, stage: StartStage, response: Response)
    ensures
        start_progress_rank(spec_onboarding_start(press, stage, response).0) < start_rank(stage),
{
}

proof fn reconcile_lowers_rank(guild: u64, stage: ReconcileStage, response: Response)
    ensures
        reconcile_progress_rank(spec_guild_create(guild, stage, response).0) < reconcile_rank(stage),
{
}

/// Every answer brings a workflow that has not ended closer to its end.
pub proof fn step_lowers_rank(workflow: Workflow, response: Response)
    requires
        rank(workflow) > 0,
    ensures
        rank(spec_step(workflow, response).0) < rank(workflow),
{
    match workflow {
        Workflow::Approve { call, progress: Progress::Running(stage) } => {
            approve_lowers_rank(call, stage, response);
        },
        Workflow::Deny { call, progress: Progress::Running(stage) } => {
            deny_lowers_rank(call, stage, response);
        },
        Workflow::Archive { press, progress: Progress::Running(stage) } => {
            archive_lowers_rank(press, stage, response);
        },
        Workflow::Delete { press, progress: Progress::Running(stage) } => {
            delete_lowers_rank(press, stage, response);
        },
        Workflow::Start { press, progress: Progress::Running(stage) } => {
            start_lowers_rank(press, stage, response);
        },
        Workflow::GuildCreate { guild, progress: Progress::Running(stage) } => {
            reconcile_lowers_rank(guild, stage, response);
        },
        _ => {},
    }
}

proof fn approve_finishes_at_rank_zero(call: Invocation, stage: ApproveStage, response: Response)
    ensures
        spec_approve(call, stage, response).1 is Finish <==> approve_progress_rank(
            spec_approve(call, stage, response).0,
        ) == 0,
{
}

proof fn deny_finishes_at_rank_zero(call: Invocation, stage: DenyStage, response: Response)
    ensures
        spec_deny(call, stage, response).1 is Finish <==> deny_progress_rank(
            spec_deny(call, stage, response).0,
        ) == 0,
{
}

proof fn archive_finishes_at_rank_zero(press: Press, stage: ArchiveStage, response: Response)
    ensures
        spec_onboarding_archive(press, stage, response).1 is Finish <==> archive_progress_rank(
            spec_onboarding_archive(press, stage, response).0,
        ) == 0,
{
}

proof fn delete_finishes_at_rank_zero(press: Press, stage: DeleteStage, response: Response)
    ensures
        spec_onboarding_delete(press, stage, response).1 is Finish <==> delete_progress_rank(
            spec_onboarding_delete(press, stage, response).0,
        ) == 0,
{
}

proof fn start_finishes_at_rank_zero(press: Press, stage: StartStage, response: Response)
    ensures
        spec_onboarding_start(press, stage, response).1 is Finish <==> start_progress_rank(
            spec_onboarding_start(press, stage, response).0,
        ) == 0,
{
}

proof fn reconcile_finishes_at_rank_zero(guild: u64, stage: ReconcileStage, response: Response)
    ensures
        spec_guild_create(guild, stage, response).1 is Finish <==> reconcile_progress_rank(
            spec_guild_create(guild, stage, response).0,
        ) == 0,
{
}

proof fn ping_finishes_at_rank_zero(call: Invocation, stage: PingStage, response: Response)
    ensures
        spec_ping(call, stage, response).1 is Finish <==> ping_progress_rank(
            spec_ping(call, stage, response).0,
        ) == 0,
{
}

proof fn setup_finishes_at_rank_zero(
    call: Invocation,
    proposal: Proposal,
    stage: SetupStage,
    response: Response,
)
    ensures
        spec_setup(call, proposal, stage, response).1 is Finish <==> setup_progress_rank(
            spec_setup(call, proposal, stage, response).0,
        ) == 0,
{
}

proof fn configure_finishes_at_rank_zero(
    call: Invocation,
    notify_role: u64,
    stage: ConfigureStage,
    response: Response,
)
    ensures
        spec_configure(call, notify_role, stage, response).1 is Finish <==> configure_progress_rank(
            spec_configure(call, notify_role, stage, response).0,
        ) == 0,
{
}

proof fn removal_finishes_at_rank_zero(
    guild: u64,
    user: Member,
    stage: RemovalStage,
    response: Response,
)
    ensures
        spec_onboarding_member_removal(guild, user, stage, response).1 is Finish
            <==> removal_progress_rank(
            spec_onboarding_member_removal(guild, user, stage, response).0,
        ) == 0,
{
}

proof fn interaction_finishes_at_rank_zero(
    press: Press,
    component: Option<Component>,
    response: Response,
)
    ensures
        spec_interaction_create(press, component, response).1 is Finish <==> rank(
            spec_interaction_create(press, component, response).0,
        ) == 0,
{
}

/// A workflow says that it has ended exactly when it has: its request is
/// the last one exactly if its rank is 0.
pub proof fn step_finishes_at_rank_zero(workflow: Workflow, response: Response)
    ensures
        spec_step(workflow, response).1 is Finish <==> rank(spec_step(workflow, response).0) == 0,
{
    match workflow {
        Workflow::Idle => {},
        Workflow::Ping { call, progress } => {
            if let Progress::Running(stage) = progress {
                ping_finishes_at_rank_zero(call, stage, response);
            }
        },
        Workflow::Setup { call, proposal, progress } => {
            if let Progress::Running(stage) = progress {
                setup_finishes_at_rank_zero(call, proposal, stage, response);
            }
        },
        Workflow::Configure { call, notify_role, progress } => {
            if let Progress::Running(stage) = progress {
                configure_finishes_at_rank_zero(call, notify_role, stage, response);
            }
        },
        Workflow::Approve { call, progress } => {
            if let Progress::Running(stage) = progress {
                approve_finishes_at_rank_zero(call, stage, response);
            }
        },
        Workflow::Deny { call, progress } => {
            if let Progress::Running(stage) = progress {
                deny_finishes_at_rank_zero(call, stage, response);
            }
        },
        Workflow::Interaction { press, component } => {
            interaction_finishes_at_rank_zero(press, component, response);
        },
        Workflow::Archive { press, progress } => {
            if let Progress::Running(stage) = progress {
                archive_finishes_at_rank_zero(press, stage, response);
            }
        },
        Workflow::Delete { press, progress } => {
            if let Progress::Running(stage) = progress {
                delete_finishes_at_rank_zero(press, stage, response);
            }
        },
        Workflow::Start { press, progress } => {
            if let Progress::Running(stage) = progress {
                start_finishes_at_rank_zero(press, stage, response);
            }
        },
        Workflow::MemberRemoval { guild, user, progress } => {
            if let Progress::Running(stage) = progress {
                removal_finishes_at_rank_zero(guild, user, stage, response);
            }
        },
        Workflow::GuildCreate { guild, progress } => {
            if let Progress::Running(stage) = progress {
                reconcile_finishes_at_rank_zero(guild, stage, response);
            }
        },
    }
}

/// The workflow that an event starts needs at most fourteen answers, and
/// asks for none exactly if there is nothing to do.
pub proof fn listener_starts_within_bound(event: Event)
    ensures
        rank(spec_listener(event).0) <= 14,
        spec_listener(event).1 is Finish <==> rank(spec_listener(event).0) == 0,
{
}

/// What a workflow did: the store it left, the requests it made, in order,
/// and how it ended.
pub ghost struct Run {
    pub store: Store,
    pub requests: Seq<Request>,
    pub outcome: Outcome,
}

/// The run of a workflow that stands at `workflow` and has `request` out,
/// against a given store and a platform that gives the given answers.
pub open spec fn run(workflow: Workflow, request: Request, store: Store, platform: Seq<Response>) -> Run
    decreases rank(workflow),
{
    match request {
        Request::Finish(outcome) => Run { store, requests: Seq::empty(), outcome },
        _ => if rank(workflow) == 0 {
            Run { store, requests: Seq::empty(), outcome: Outcome::Ignored }
        } else {
            let response = answer(store, request, platform);
            let next = spec_step(workflow, response);
            proof {
                step_lowers_rank(workflow, response);
            }
            let rest = run(next.0, next.1, store_after(store, request), left(request, platform));
            Run { store: rest.store, requests: seq![request] + rest.requests, outcome: rest.outcome }
        },
    }
}

/// The stores that a run passes through: the one it starts with, and the
/// one that each of its requests leaves.
pub open spec fn passes(
    workflow: Workflow,
    request: Request,
    store: Store,
    platform: Seq<Response>,
) -> Seq<Store>
    decreases rank(workflow),
{
    match request {
        Request::Finish(_) => seq![store],
        _ => if rank(workflow) == 0 {
            seq![store]
        } else {
            let response = answer(store, request, platform);
            let next = spec_step(workflow, response);
            proof {
                step_lowers_rank(workflow, response);
            }
            seq![store] + passes(
                next.0,
                next.1,
                store_after(store, request),
                left(request, platform),
            )
        },
    }
}

} // verus!
