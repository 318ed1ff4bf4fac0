//! The records of verifications agree, and every workflow keeps them so.

use crate::commands::onboarding::{spec_approve, spec_configure, spec_deny};
use crate::commands::onboarding::{ApproveStage, ConfigureStage, DenyStage};
use crate::commands::ping::{spec_ping, PingStage};
use crate::commands::setup::{spec_setup, Proposal, SetupStage};
use crate::engine::{Invocation, Press, Progress, Request, Response};
use crate::events::{
    spec_begin_pending, spec_guild_create, spec_listener, spec_onboarding_archive,
    spec_onboarding_delete, spec_onboarding_member_removal, spec_onboarding_start, spec_step,
    ArchiveStage, DeleteStage, Event, PendingStage, ReconcileStage, RemovalStage, StartStage,
    VerificationStage, Workflow,
};
use crate::models::Member;
use crate::sessions::{
    consistent, fresh, justified, justified_request_keeps_consistency,
    other_requests_keep_sessions, owner_of, session_of,
};
use crate::store::{Field, Record, Store};
use crate::world::{answer, left, passes, rank, run, step_lowers_rank, store_after};
use vstd::prelude::*;

verus! {

/// Whether a request is one of the two that record and forget a
/// verification.
pub open spec fn moves_session(request: Request) -> bool {
    request is BeginSession || request is EndSession
}

/// What must hold while a request to join is taken up, so that the
/// verification that may be recorded at the end is in order.
pub open spec fn start_in_order(
    press: Press,
    stage: StartStage,
    request: Request,
    store: Store,
    platform: Seq<Response>,
) -> bool {
    match stage {
        StartStage::Acknowledging => request is Acknowledge && fresh(store, platform),
        StartStage::Pending(PendingStage::Checking) => {
            &&& request == spec_begin_pending(press.guild, press.member.id)
            &&& fresh(store, platform)
        },
        StartStage::Pending(PendingStage::Loading) => request is Lookup,
        StartStage::Verifying(stage) => match stage {
            VerificationStage::ListingRoles => {
                &&& request is FetchRoles
                &&& fresh(store, platform)
                &&& session_of(store, press.guild, press.member.id) is None
            },
            VerificationStage::LoadingNotifyRole { .. } => {
                &&& request is Lookup
                &&& fresh(store, platform)
                &&& session_of(store, press.guild, press.member.id) is None
            },
            VerificationStage::LoadingCategory { .. } => {
                &&& request is Lookup
                &&& fresh(store, platform)
                &&& session_of(store, press.guild, press.member.id) is None
            },
            VerificationStage::Creating { .. } => {
                &&& request is CreateChannel
                &&& fresh(store, platform)
                &&& session_of(store, press.guild, press.member.id) is None
            },
            VerificationStage::Granting { channel, .. } => {
                &&& request is GrantAccess
                &&& owner_of(store, channel) is None
                &&& session_of(store, press.guild, press.member.id) is None
            },
            VerificationStage::Recording { .. } => true,
            VerificationStage::Notifying => !moves_session(request),
        },
    }
}

/// The question for the channel of the verification of `user` in the
/// community of a press.
pub open spec fn asks_for_session(press: Press, user: u64, request: Request) -> bool {
    request == (Request::Lookup {
        record: Record::Validation { guild: press.guild, member: user },
        field: Field::Channel,
    })
}

/// The state of a run in which the records agree and will go on to agree:
/// the request that is out may be carried out, and the workflow has learnt
/// from the store what it needs for the requests that it will make.
pub open spec fn sound(
    workflow: Workflow,
    request: Request,
    store: Store,
    platform: Seq<Response>,
) -> bool {
    &&& consistent(store)
    &&& justified(store, request)
    &&& match workflow {
        Workflow::Interaction { .. } => request is Flag && fresh(store, platform),
        Workflow::Archive {
            press,
            progress: Progress::Running(ArchiveStage::Pending { user, stage: PendingStage::Loading }),
        } => asks_for_session(press, user, request),
        Workflow::Delete {
            press,
            progress: Progress::Running(DeleteStage::Pending { user, stage: PendingStage::Loading }),
        } => asks_for_session(press, user, request),
        Workflow::Start { press, progress: Progress::Running(stage) } => start_in_order(
            press,
            stage,
            request,
            store,
            platform,
        ),
        _ => true,
    }
}

proof fn ping_moves_no_session(call: Invocation, stage: PingStage, response: Response)
    ensures
        !moves_session(spec_ping(call, stage, response).1),
{
}

proof fn setup_moves_no_session(
    call: Invocation,
    proposal: Proposal,
    stage: SetupStage,
    response: Response,
)
    ensures
        !moves_session(spec_setup(call, proposal, stage, response).1),
{
}

proof fn configure_moves_no_session(
    call: Invocation,
    notify_role: u64,
    stage: ConfigureStage,
    response: Response,
)
    ensures
        !moves_session(spec_configure(call, notify_role, stage, response).1),
{
}

proof fn approve_moves_no_session(call: Invocation, stage: ApproveStage, response: Response)
    ensures
        !moves_session(spec_approve(call, stage, response).1),
{
}

proof fn deny_moves_no_session(call: Invocation, stage: DenyStage, response: Response)
    ensures
        !moves_session(spec_deny(call, stage, response).1),
{
}

proof fn removal_moves_no_session(guild: u64, user: Member, stage: RemovalStage, response: Response)
    ensures
        !moves_session(spec_onboarding_member_removal(guild, user, stage, response).1),
{
}

proof fn reconcile_moves_no_session(guild: u64, stage: ReconcileStage, response: Response)
    ensures
        !moves_session(spec_guild_create(guild, stage, response).1),
{
}

/// A platform whose answers are fresh has fresh answers left.
proof fn fresh_answers_stay_fresh(store: Store, request: Request, platform: Seq<Response>)
    requires
        fresh(store, platform),
    ensures
        fresh(store, left(request, platform)),
{
    let rest = left(request, platform);
    assert forall|i: int| 0 <= i < rest.len() implies (#[trigger] rest[i] matches Response::Id(
        channel,
    ) ==> owner_of(store, channel) is None) by {
        if rest != platform {
            assert(rest[i] == platform[i + 1]);
        }
    }
}

proof fn archive_stays_sound(
    press: Press,
    stage: ArchiveStage,
    request: Request,
    store: Store,
    platform: Seq<Response>,
)
    requires
        sound(Workflow::Archive { press, progress: Progress::Running(stage) }, request, store, platform),
        !moves_session(request),
    ensures
        ({
            let next = spec_onboarding_archive(press, stage, answer(store, request, platform));
            sound(
                Workflow::Archive { press, progress: next.0 },
                next.1,
                store_after(store, request),
                left(request, platform),
            )
        }),
{
    other_requests_keep_sessions(store, request);
    justified_request_keeps_consistency(store, request);
}

proof fn delete_stays_sound(
    press: Press,
    stage: DeleteStage,
    request: Request,
    store: Store,
    platform: Seq<Response>,
)
    requires
        sound(Workflow::Delete { press, progress: Progress::Running(stage) }, request, store, platform),
        !moves_session(request),
    ensures
        ({
            let next = spec_onboarding_delete(press, stage, answer(store, request, platform));
            sound(
                Workflow::Delete { press, progress: next.0 },
                next.1,
                store_after(store, request),
                left(request, platform),
            )
        }),
{
    other_requests_keep_sessions(store, request);
    justified_request_keeps_consistency(store, request);
}

proof fn archive_goes_on_after_write(press: Press, stage: ArchiveStage)
    ensures
        !moves_session(spec_onboarding_archive(press, stage, Response::Done).1),
        !(spec_onboarding_archive(press, stage, Response::Done).0 matches Progress::Running(
            ArchiveStage::Pending { .. },
        )),
{
}

proof fn delete_goes_on_after_write(press: Press, stage: DeleteStage)
    ensures
        !moves_session(spec_onboarding_delete(press, stage, Response::Done).1),
        !(spec_onboarding_delete(press, stage, Response::Done).0 matches Progress::Running(
            DeleteStage::Pending { .. },
        )),
{
}

proof fn start_stays_sound(
    press: Press,
    stage: StartStage,
    request: Request,
    store: Store,
    platform: Seq<Response>,
)
    requires
        sound(Workflow::Start { press, progress: Progress::Running(stage) }, request, store, platform),
    ensures
        ({
            let next = spec_onboarding_start(press, stage, answer(store, request, platform));
            sound(
                Workflow::Start { press, progress: next.0 },
                next.1,
                store_after(store, request),
                left(request, platform),
            )
        }),
{
    justified_request_keeps_consistency(store, request);
    if !moves_session(request) {
        other_requests_keep_sessions(store, request);
        if fresh(store, platform) {
            fresh_answers_stay_fresh(store, request, platform);
            let rest = left(request, platform);
            assert forall|i: int| 0 <= i < rest.len() implies (#[trigger] rest[i] matches Response::Id(
                channel,
            ) ==> owner_of(store_after(store, request), channel) is None) by {}
        }
    }
}

/// One answer takes a sound state of a run to a sound state.
pub proof fn step_keeps_sound(
    workflow: Workflow,
    request: Request,
    store: Store,
    platform: Seq<Response>,
)
    requires
        sound(workflow, request, store, platform),
        !(request is Finish),
    ensures
        ({
            let next = spec_step(workflow, answer(store, request, platform));
            sound(next.0, next.1, store_after(store, request), left(request, platform))
        }),
{
    let response = answer(store, request, platform);
    justified_request_keeps_consistency(store, request);
    match workflow {
        Workflow::Idle => {},
        Workflow::Ping { call, progress } => {
            if let Progress::Running(stage) = progress {
                ping_moves_no_session(call, stage, response);
            }
        },
        Workflow::Setup { call, proposal, progress } => {
            if let Progress::Running(stage) = progress {
                setup_moves_no_session(call, proposal, stage, response);
            }
        },
        Workflow::Configure { call, notify_role, progress } => {
            if let Progress::Running(stage) = progress {
                configure_moves_no_session(call, notify_role, stage, response);
            }
        },
        Workflow::Approve { call, progress } => {
            if let Progress::Running(stage) = progress {
                approve_moves_no_session(call, stage, response);
            }
        },
        Workflow::Deny { call, progress } => {
            if let Progress::Running(stage) = progress {
                deny_moves_no_session(call, stage, response);
            }
        },
        Workflow::Interaction { press, component } => {
            other_requests_keep_sessions(store, request);
            fresh_answers_stay_fresh(store, request, platform);
        },
        Workflow::Archive { press, progress } => {
            if let Progress::Running(stage) = progress {
                if moves_session(request) {
                    archive_goes_on_after_write(press, stage);
                } else {
                    archive_stays_sound(press, stage, request, store, platform);
                }
            }
        },
        Workflow::Delete { press, progress } => {
            if let Progress::Running(stage) = progress {
                if moves_session(request) {
                    delete_goes_on_after_write(press, stage);
                } else {
                    delete_stays_sound(press, stage, request, store, platform);
                }
            }
        },
        Workflow::Start { press, progress } => {
            if let Progress::Running(stage) = progress {
                start_stays_sound(press, stage, request, store, platform);
            }
        },
        Workflow::MemberRemoval { guild, user, progress } => {
            if let Progress::Running(stage) = progress {
                removal_moves_no_session(guild, user, stage, response);
            }
        },
        Workflow::GuildCreate { guild, progress } => {
            if let Progress::Running(stage) = progress {
                reconcile_moves_no_session(guild, stage, response);
            }
        },
    }
}

/// A run that starts in a sound state leaves the records in agreement.
pub proof fn sound_run_keeps_sessions_consistent(
    workflow: Workflow,
    request: Request,
    store: Store,
    platform: Seq<Response>,
)
    requires
        sound(workflow, request, store, platform),
    ensures
        consistent(run(workflow, request, store, platform).store),
    decreases rank(workflow),
{
    if !(request is Finish) && rank(workflow) > 0 {
        let response = answer(store, request, platform);
        let next = spec_step(workflow, response);
        step_keeps_sound(workflow, request, store, platform);
        step_lowers_rank(workflow, response);
        sound_run_keeps_sessions_consistent(
            next.0,
            next.1,
            store_after(store, request),
            left(request, platform),
        );
    }
}

/// Every store that a run passes through, if it starts in a sound state,
/// has its records in agreement.
pub proof fn sound_run_passes_through_consistent_stores(
    workflow: Workflow,
    request: Request,
    store: Store,
    platform: Seq<Response>,
)
    requires
        sound(workflow, request, store, platform),
    ensures
        forall|i: int|
            0 <= i < passes(workflow, request, store, platform).len() ==> consistent(
                #[trigger] passes(workflow, request, store, platform)[i],
            ),
    decreases rank(workflow),
{
    if !(request is Finish) && rank(workflow) > 0 {
        let response = answer(store, request, platform);
        let next = spec_step(workflow, response);
        step_keeps_sound(workflow, request, store, platform);
        step_lowers_rank(workflow, response);
        sound_run_passes_through_consistent_stores(
            next.0,
            next.1,
            store_after(store, request),
            left(request, platform),
        );
        let all = passes(workflow, request, store, platform);
        let rest = passes(next.0, next.1, store_after(store, request), left(request, platform));
        assert forall|i: int| 0 <= i < all.len() implies consistent(#[trigger] all[i]) by {
            if i > 0 {
                assert(all[i] == rest[i - 1]);
            }
        }
    }
}

/// The records of verifications agree after every event, and after every
/// request on the way, whatever the platform answers, if they agreed
/// before and the platform hands out no identifier that is a verification
/// channel already: a member is under verification in a channel exactly if
/// the channel is recorded as theirs.
pub proof fn sessions_stay_consistent(event: Event, store: Store, platform: Seq<Response>)
    requires
        consistent(store),
        fresh(store, platform),
    ensures
        consistent(run(spec_listener(event).0, spec_listener(event).1, store, platform).store),
        forall|i: int|
            0 <= i < passes(spec_listener(event).0, spec_listener(event).1, store, platform).len()
                ==> consistent(
                #[trigger] passes(spec_listener(event).0, spec_listener(event).1, store, platform)[i],
            ),
{
    let start = spec_listener(event);
    sound_run_keeps_sessions_consistent(start.0, start.1, store, platform);
    sound_run_passes_through_consistent_stores(start.0, start.1, store, platform);
}

/// In a store whose records agree, a channel is recorded as a member's
/// exactly if the member is under verification in it in some community.
pub proof fn forward_and_backward_agree(store: Store, member: u64, channel: u64)
    requires
        consistent(store),
    ensures
        owner_of(store, channel) == Some(member) <==> exists|guild: u64|
            #[trigger] session_of(store, guild, member) == Some(channel),
{
}

} // verus!
