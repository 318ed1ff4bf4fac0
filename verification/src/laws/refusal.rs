//! A restricted command that is refused changes nothing: one that is asked
//! for outside a verification channel, and one whose caller lacks the
//! rights.

use crate::commands::onboarding::{ApproveStage, DenyStage};
use crate::commands::{spec_serves_guild, Admission};
use crate::engine::{writes, Failure, Invocation, Outcome, Progress, Request, Response};
use crate::events::{spec_listener, spec_step, Command, Event, Workflow};
use crate::laws::detachment::{asks_for_owner, asks_whether_owned};
use crate::notices::Notice;
use crate::sessions::owner_of;
use crate::store::{flag_at, id_at, present, Field, Record, Store};
use crate::world::{answer, left, rank, run, Run};
use vstd::prelude::*;

verus! {

/// Whether a request changes neither the store nor the roles or the
/// membership of anyone.
pub open spec fn harmless(request: Request) -> bool {
    &&& writes(request).len() == 0
    &&& !(request is RevokeAccess)
    &&& !(request is GrantAccess)
    &&& !(request is GrantRole)
    &&& !(request is Kick)
}

/// Whether a run changed nothing: every request it made was harmless, and
/// it left the store as it found it.
pub open spec fn changed_nothing(store: Store, done: Run) -> bool {
    &&& done.store == store
    &&& forall|i: int| 0 <= i < done.requests.len() ==> harmless(#[trigger] done.requests[i])
}

/// The request that stands out at a stage of admission.
pub open spec fn admission_asks(call: Invocation, stage: Admission, request: Request) -> bool {
    match stage {
        Admission::Gate => request == spec_serves_guild(call.guild),
        Admission::AdminRole => request == (Request::Lookup {
            record: Record::Guild(call.guild),
            field: Field::AdminRole,
        }),
        Admission::Membership => request is HasRole,
    }
}

/// The request that stands out at a stage of an approval, up to the stage
/// at which the owner of the channel is known.
pub open spec fn approve_asks(call: Invocation, stage: ApproveStage, request: Request) -> bool {
    match stage {
        ApproveStage::Admission(stage) => admission_asks(call, stage, request),
        ApproveStage::Resolving => request == asks_whether_owned(call.channel),
        ApproveStage::LoadingOwner => request == asks_for_owner(call.channel),
        _ => false,
    }
}

/// The request that stands out at a stage of a denial, up to the stage at
/// which the owner of the channel is known.
pub open spec fn deny_asks(call: Invocation, stage: DenyStage, request: Request) -> bool {
    match stage {
        DenyStage::Admission(stage) => admission_asks(call, stage, request),
        DenyStage::Resolving => request == asks_whether_owned(call.channel),
        DenyStage::LoadingOwner => request == asks_for_owner(call.channel),
        _ => false,
    }
}

/// Whether an outcome is one that leaves a request for a decision
/// undecided.
pub open spec fn undecided(outcome: Outcome) -> bool {
    ||| outcome == Outcome::WrongChannel
    ||| outcome == Outcome::NotConfigured
    ||| outcome == Outcome::AuthorizationDenied
    ||| outcome == Outcome::ConfigurationError
    ||| outcome == Outcome::ExternalCallFailure
}

proof fn harmless_after_first(request: Request, rest: Seq<Request>)
    requires
        harmless(request),
        forall|i: int| 0 <= i < rest.len() ==> harmless(#[trigger] rest[i]),
    ensures
        forall|i: int|
            0 <= i < (seq![request] + rest).len() ==> harmless(#[trigger] (seq![request] + rest)[i]),
{
    let all = seq![request] + rest;
    assert forall|i: int| 0 <= i < all.len() implies harmless(#[trigger] all[i]) by {
        if i > 0 {
            assert(all[i] == rest[i - 1]);
        }
    }
}

proof fn approve_refusal_sent(
    call: Invocation,
    outcome: Outcome,
    request: Request,
    store: Store,
    platform: Seq<Response>,
)
    requires
        request is Reply,
    ensures
        ({
            let done = run(
                Workflow::Approve { call, progress: Progress::Closing(outcome) },
                request,
                store,
                platform,
            );
            &&& changed_nothing(store, done)
            &&& done.outcome == outcome || done.outcome == Outcome::ExternalCallFailure
            &&& platform.len() > 0 && platform[0] == Response::Done ==> done.outcome == outcome
        }),
{
    reveal_with_fuel(run, 2);
    harmless_after_first(request, Seq::empty());
}

proof fn deny_refusal_sent(
    call: Invocation,
    outcome: Outcome,
    request: Request,
    store: Store,
    platform: Seq<Response>,
)
    requires
        request is Reply,
    ensures
        ({
            let done = run(
                Workflow::Deny { call, progress: Progress::Closing(outcome) },
                request,
                store,
                platform,
            );
            &&& changed_nothing(store, done)
            &&& done.outcome == outcome || done.outcome == Outcome::ExternalCallFailure
            &&& platform.len() > 0 && platform[0] == Response::Done ==> done.outcome == outcome
        }),
{
    reveal_with_fuel(run, 2);
    harmless_after_first(request, Seq::empty());
}

/// Whether the store admits the owner of a community to a restricted
/// command: the community is set up and has a role of administrators.
pub open spec fn admits_owner(store: Store, guild: u64) -> bool {
    &&& flag_at(store, Record::Guild(guild), Field::Configured)
    &&& id_at(store, Record::Guild(guild), Field::AdminRole) is Some
}

proof fn approve_refusal_run(
    call: Invocation,
    stage: ApproveStage,
    request: Request,
    store: Store,
    platform: Seq<Response>,
)
    requires
        approve_asks(call, stage, request),
        owner_of(store, call.channel) is None,
    ensures
        ({
            let done = run(
                Workflow::Approve { call, progress: Progress::Running(stage) },
                request,
                store,
                platform,
            );
            &&& changed_nothing(store, done)
            &&& undecided(done.outcome)
            &&& {
                &&& call.actor == call.owner
                &&& admits_owner(store, call.guild)
                &&& !present(store, Record::ChannelToUser, Field::Id(call.channel))
                &&& platform.len() > 0 && platform[0] == Response::Done
                &&& !(stage is LoadingOwner)
                &&& !(stage matches ApproveStage::Admission(Admission::Membership))
            } ==> done.outcome == Outcome::WrongChannel
        }),
    decreases rank(Workflow::Approve { call, progress: Progress::Running(stage) }),
{
    let workflow = Workflow::Approve { call, progress: Progress::Running(stage) };
    let response = answer(store, request, platform);
    let next = spec_step(workflow, response);
    let rest = run(next.0, next.1, store, left(request, platform));
    match next.0 {
        Workflow::Approve { call: same, progress: Progress::Running(following) } => {
            approve_refusal_run(call, following, next.1, store, left(request, platform));
        },
        Workflow::Approve { call: same, progress: Progress::Closing(outcome) } => {
            approve_refusal_sent(call, outcome, next.1, store, left(request, platform));
        },
        _ => {
            reveal_with_fuel(run, 2);
        },
    }
    harmless_after_first(request, rest.requests);
}

proof fn deny_refusal_run(
    call: Invocation,
    stage: DenyStage,
    request: Request,
    store: Store,
    platform: Seq<Response>,
)
    requires
        deny_asks(call, stage, request),
        owner_of(store, call.channel) is None,
    ensures
        ({
            let done = run(
                Workflow::Deny { call, progress: Progress::Running(stage) },
                request,
                store,
                platform,
            );
            &&& changed_nothing(store, done)
            &&& undecided(done.outcome)
            &&& {
                &&& call.actor == call.owner
                &&& admits_owner(store, call.guild)
                &&& !present(store, Record::ChannelToUser, Field::Id(call.channel))
                &&& platform.len() > 0 && platform[0] == Response::Done
                &&& !(stage is LoadingOwner)
                &&& !(stage matches DenyStage::Admission(Admission::Membership))
            } ==> done.outcome == Outcome::WrongChannel
        }),
    decreases rank(Workflow::Deny { call, progress: Progress::Running(stage) }),
{
    let workflow = Workflow::Deny { call, progress: Progress::Running(stage) };
    let response = answer(store, request, platform);
    let next = spec_step(workflow, response);
    let rest = run(next.0, next.1, store, left(request, platform));
    match next.0 {
        Workflow::Deny { call: same, progress: Progress::Running(following) } => {
            deny_refusal_run(call, following, next.1, store, left(request, platform));
        },
        Workflow::Deny { call: same, progress: Progress::Closing(outcome) } => {
            deny_refusal_sent(call, outcome, next.1, store, left(request, platform));
        },
        _ => {
            reveal_with_fuel(run, 2);
        },
    }
    harmless_after_first(request, rest.requests);
}

/// Whether a command asks for a decision on a member's request.
pub open spec fn decides(command: Command) -> bool {
    command is Approve || command is Deny
}

/// An approval or a denial that is asked for in a channel that is no
/// member's verification channel changes nothing, whatever the platform
/// answers: no access is granted or revoked, no role is granted, nobody is
/// removed, and the store stays as it is. The command never ends as
/// carried out.
pub proof fn decision_outside_verification_channel_changes_nothing(
    call: Invocation,
    command: Command,
    store: Store,
    platform: Seq<Response>,
)
    requires
        decides(command),
        owner_of(store, call.channel) is None,
    ensures
        ({
            let start = spec_listener(Event::SlashCommand { call, command });
            let done = run(start.0, start.1, store, platform);
            &&& changed_nothing(store, done)
            &&& undecided(done.outcome)
        }),
{
    let start = spec_listener(Event::SlashCommand { call, command });
    match command {
        Command::Approve => {
            approve_refusal_run(
                call,
                ApproveStage::Admission(Admission::Gate),
                start.1,
                store,
                platform,
            );
        },
        Command::Deny => {
            deny_refusal_run(call, DenyStage::Admission(Admission::Gate), start.1, store, platform);
        },
        _ => {},
    }
}

/// The owner of a community that is set up, who asks for an approval or a
/// denial in a channel for which no verification is recorded, is told that
/// the channel is the wrong one, and the command ends as such, provided
/// that the platform delivers the answer.
pub proof fn decision_outside_verification_channel_is_refused(
    call: Invocation,
    command: Command,
    store: Store,
    platform: Seq<Response>,
)
    requires
        decides(command),
        call.actor == call.owner,
        admits_owner(store, call.guild),
        !present(store, Record::ChannelToUser, Field::Id(call.channel)),
        platform.len() > 0,
        platform[0] == Response::Done,
    ensures
        ({
            let start = spec_listener(Event::SlashCommand { call, command });
            let done = run(start.0, start.1, store, platform);
            &&& done.outcome == Outcome::WrongChannel
            &&& done.requests.len() > 0
            &&& done.requests.last() == (Request::Reply {
                notice: if command is Approve {
                    Notice::ApprovalWrongChannel
                } else {
                    Notice::DenialWrongChannel
                },
            })
        }),
{
    let start = spec_listener(Event::SlashCommand { call, command });
    reveal_with_fuel(run, 6);
    match command {
        Command::Approve => {
            approve_refusal_run(
                call,
                ApproveStage::Admission(Admission::Gate),
                start.1,
                store,
                platform,
            );
        },
        Command::Deny => {
            deny_refusal_run(call, DenyStage::Admission(Admission::Gate), start.1, store, platform);
        },
        _ => {},
    }
}

/// Whether a command is open to the owner and the administrators of a
/// community only.
pub open spec fn restricted(command: Command) -> bool {
    command is Configure || command is Approve || command is Deny
}

/// The questions by which a caller who is not the owner is screened.
pub open spec fn screening(call: Invocation, store: Store) -> Seq<Request> {
    seq![
        spec_serves_guild(call.guild),
        Request::Lookup { record: Record::Guild(call.guild), field: Field::AdminRole },
        Request::HasRole {
            guild: call.guild,
            user: call.actor,
            role: id_at(store, Record::Guild(call.guild), Field::AdminRole).unwrap(),
        },
    ]
}

/// A caller who does not own the community, and of whom the platform says
/// that they do not hold the role of administrators, is turned away from
/// every restricted command: they are screened and told that they lack the
/// rights, and nothing else happens.
pub proof fn caller_without_rights_is_turned_away(
    call: Invocation,
    command: Command,
    store: Store,
    platform: Seq<Response>,
)
    requires
        restricted(command),
        call.actor != call.owner,
        admits_owner(store, call.guild),
        platform.len() > 0,
        platform[0] == Response::Flag(false),
    ensures
        ({
            let start = spec_listener(Event::SlashCommand { call, command });
            let done = run(start.0, start.1, store, platform);
            &&& done.requests == screening(call, store).push(
                Request::Reply { notice: Notice::InsufficientRights },
            )
            &&& done.store == store
            &&& done.outcome == if platform.len() > 1 && (platform[1] is Done || platform[1] is Id) {
                Outcome::AuthorizationDenied
            } else {
                Outcome::ExternalCallFailure
            }
        }),
{
    reveal_with_fuel(run, 5);
}

/// Where the platform does not know the role of administrators any more,
/// a restricted command ends as an error of configuration, not as a
/// refusal, and nothing changes.
pub proof fn missing_admin_role_is_a_configuration_error(
    call: Invocation,
    command: Command,
    store: Store,
    platform: Seq<Response>,
)
    requires
        restricted(command),
        call.actor != call.owner,
        admits_owner(store, call.guild),
        platform.len() > 0,
        platform[0] == Response::Failed(Failure::NotFound),
    ensures
        ({
            let start = spec_listener(Event::SlashCommand { call, command });
            let done = run(start.0, start.1, store, platform);
            &&& done.requests == screening(call, store)
            &&& done.store == store
            &&& done.outcome == Outcome::ConfigurationError
        }),
{
    reveal_with_fuel(run, 4);
}

} // verus!
