//! A decision on a member's request, and a member's leaving, leave the
//! records of verifications as they are: only archiving and deleting the
//! channel forget a verification.

use crate::commands::onboarding::{spec_approve, spec_deny, ApproveStage, DenyStage};
use crate::engine::{writes, Invocation, Outcome, Progress, Request, Response};
use crate::events::{spec_begin_pending, spec_listener, spec_step, Command, Event, Workflow};
use crate::laws::detachment::asks_for_channel;
use crate::laws::refusal::decides;
use crate::models::Member;
use crate::notices::Notice;
use crate::sessions::session_of;
use crate::store::Store;
use crate::world::{answer, left, rank, run};
use vstd::prelude::*;

verus! {

proof fn approve_writes_nothing(call: Invocation, stage: ApproveStage, response: Response)
    ensures
        writes(spec_approve(call, stage, response).1).len() == 0,
{
}

proof fn deny_writes_nothing(call: Invocation, stage: DenyStage, response: Response)
    ensures
        writes(spec_deny(call, stage, response).1).len() == 0,
{
}

/// Whether a workflow is an approval or a denial.
pub open spec fn deciding(workflow: Workflow) -> bool {
    workflow is Approve || workflow is Deny
}

proof fn deciding_run_keeps_store(
    workflow: Workflow,
    request: Request,
    store: Store,
    platform: Seq<Response>,
)
    requires
        deciding(workflow),
        writes(request).len() == 0,
    ensures
        run(workflow, request, store, platform).store == store,
    decreases rank(workflow),
{
    if !(request is Finish) && rank(workflow) > 0 {
        let response = answer(store, request, platform);
        let next = spec_step(workflow, response);
        match workflow {
            Workflow::Approve { call, progress: Progress::Running(stage) } => {
                approve_writes_nothing(call, stage, response);
            },
            Workflow::Deny { call, progress: Progress::Running(stage) } => {
                deny_writes_nothing(call, stage, response);
            },
            _ => {},
        }
        assert(writes(request) =~= Seq::empty());
        deciding_run_keeps_store(next.0, next.1, store, left(request, platform));
    }
}

/// An approval and a denial write nothing to the store, whatever the
/// platform answers: the verification of the member stays recorded until
/// the channel is archived or deleted.
pub proof fn decision_keeps_the_verification(
    call: Invocation,
    command: Command,
    store: Store,
    platform: Seq<Response>,
)
    requires
        decides(command),
    ensures
        ({
            let start = spec_listener(Event::SlashCommand { call, command });
            run(start.0, start.1, store, platform).store == store
        }),
{
    let start = spec_listener(Event::SlashCommand { call, command });
    assert(writes(start.1) =~= Seq::empty());
    deciding_run_keeps_store(start.0, start.1, store, platform);
}

/// What the leaving of a member comes to: the store is asked whether the
/// member is under verification, and in which channel; where they are,
/// staff are told in that channel, and that is all. The store stays as it
/// is, so that the decision on the channel remains with staff.
pub proof fn member_leaving_is_reported_and_nothing_more(
    guild: u64,
    user: Member,
    store: Store,
    platform: Seq<Response>,
)
    ensures
        ({
            let start = spec_listener(Event::GuildMemberRemoval { guild, user });
            let done = run(start.0, start.1, store, platform);
            &&& done.store == store
            &&& match session_of(store, guild, user.id) {
                Some(channel) => {
                    &&& done.requests == seq![
                        spec_begin_pending(guild, user.id),
                        asks_for_channel(guild, user.id),
                        Request::Send { channel, notice: Notice::MemberLeft { profile: user } },
                    ]
                    &&& done.outcome == Outcome::Completed || done.outcome
                        == Outcome::ExternalCallFailure
                },
                None => done.requests.len() <= 2 && (done.outcome == Outcome::Ignored
                    || done.outcome == Outcome::ExternalCallFailure),
            }
        }),
{
    reveal_with_fuel(run, 4);
    let start = spec_listener(Event::GuildMemberRemoval { guild, user });
    let done = run(start.0, start.1, store, platform);
    assert(writes(start.1) =~= Seq::empty());
    assert(writes(asks_for_channel(guild, user.id)) =~= Seq::empty());
    if let Some(channel) = session_of(store, guild, user.id) {
        let report = Request::Send { channel, notice: Notice::MemberLeft { profile: user } };
        assert(writes(report) =~= Seq::empty());
        assert(done.requests =~= seq![
            spec_begin_pending(guild, user.id),
            asks_for_channel(guild, user.id),
            report,
        ]);
    }
}

} // verus!
