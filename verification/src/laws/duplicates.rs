//! A request to join that is made twice opens one verification.

use crate::engine::{Outcome, Press, Progress, Request, Response};
use crate::events::{
    spec_begin_pending, spec_listener, spec_step, Event, Interaction, PendingStage, StartStage,
    VerificationStage, Workflow,
};
use crate::identifiers::ONBOARDING_START;
use crate::notices::Notice;
use crate::sessions::{session_of, session_requests_effect, with_session};
use crate::store::{Field, Record, Store};
use crate::world::{answer, left, rank, run, Run};
use vstd::prelude::*;

verus! {

/// The number of channels that a sequence of requests asks to create.
pub open spec fn creations(requests: Seq<Request>) -> nat
    decreases requests.len(),
{
    if requests.len() == 0 {
        0
    } else {
        (if requests[0] is CreateChannel {
            1nat
        } else {
            0nat
        }) + creations(requests.skip(1))
    }
}

proof fn creations_after_first(request: Request, rest: Seq<Request>)
    ensures
        creations(seq![request] + rest) == (if request is CreateChannel {
            1nat
        } else {
            0nat
        }) + creations(rest),
{
    let all = seq![request] + rest;
    assert(all.skip(1) =~= rest);
}

/// What a sequence of requests ends with.
pub open spec fn ends_with(requests: Seq<Request>, request: Request) -> bool {
    requests.len() > 0 && requests.last() == request
}

/// The press of the control that asks to join.
pub open spec fn request_to_join(press: Press, custom_id: String) -> Event {
    Event::InteractionCreate { interaction: Interaction::MessageComponent { press, custom_id } }
}

/// The request that stands out at a stage of taking up a request to join.
pub open spec fn asked_at(press: Press, stage: StartStage, request: Request) -> bool {
    match stage {
        StartStage::Acknowledging => request is Acknowledge,
        StartStage::Pending(PendingStage::Checking) => request == spec_begin_pending(
            press.guild,
            press.member.id,
        ),
        StartStage::Pending(PendingStage::Loading) => request == (Request::Lookup {
            record: Record::Validation { guild: press.guild, member: press.member.id },
            field: Field::Channel,
        }),
        StartStage::Verifying(stage) => match stage {
            VerificationStage::ListingRoles => request is FetchRoles,
            VerificationStage::LoadingNotifyRole { .. } => request is Lookup,
            VerificationStage::LoadingCategory { .. } => request is Lookup,
            VerificationStage::Creating { .. } => request is CreateChannel,
            VerificationStage::Granting { .. } => request is GrantAccess,
            VerificationStage::Recording { channel, .. } => request == (Request::BeginSession {
                guild: press.guild,
                member: press.member.id,
                channel,
            }),
            VerificationStage::Notifying => request is Send,
        },
    }
}

/// The run opened exactly one verification: it asked for one channel, and
/// the store differs from `store` by the verification of the member in a
/// channel.
pub open spec fn opened_one(press: Press, store: Store, done: Run) -> bool {
    &&& creations(done.requests) == 1
    &&& session_of(done.store, press.guild, press.member.id) matches Some(channel)
        && done.store == with_session(store, press.guild, press.member.id, channel)
}

/// The run opened nothing: it asked for no channel and left the store as
/// it was; and if it came to its end, the last thing it did was to point
/// the member to `channel`.
pub open spec fn pointed_to(channel: u64, store: Store, done: Run) -> bool {
    &&& creations(done.requests) == 0
    &&& done.store == store
    &&& done.outcome == Outcome::Completed ==> ends_with(
        done.requests,
        Request::FollowUp { notice: Notice::AlreadyRequested { channel } },
    )
}

proof fn closing_run(press: Press, outcome: Outcome, request: Request, store: Store, platform: Seq<Response>)
    requires
        !(request is Finish),
        request is FollowUp || request is Send,
    ensures
        ({
            let done = run(
                Workflow::Start { press, progress: Progress::Closing(outcome) },
                request,
                store,
                platform,
            );
            &&& done.requests == seq![request]
            &&& done.store == store
            &&& creations(done.requests) == 0
        }),
{
    reveal_with_fuel(run, 2);
    creations_after_first(request, Seq::empty());
}

/// The workflow that takes up a request to join, at a stage of its own.
pub open spec fn at(press: Press, stage: StartStage) -> Workflow {
    Workflow::Start { press, progress: Progress::Running(stage) }
}

proof fn notifying_run(press: Press, request: Request, store: Store, platform: Seq<Response>)
    requires
        request is Send,
    ensures
        ({
            let done = run(
                at(press, StartStage::Verifying(VerificationStage::Notifying)),
                request,
                store,
                platform,
            );
            &&& creations(done.requests) == 0
            &&& done.store == store
        }),
{
    let response = answer(store, request, platform);
    let next = spec_step(
        at(press, StartStage::Verifying(VerificationStage::Notifying)),
        response,
    );
    if next.1 is FollowUp {
        closing_run(press, Outcome::Completed, next.1, store, left(request, platform));
    }
    let rest = run(next.0, next.1, store, left(request, platform));
    creations_after_first(request, rest.requests);
}

proof fn recording_run(
    press: Press,
    channel: u64,
    notify_role: u64,
    request: Request,
    store: Store,
    platform: Seq<Response>,
)
    requires
        asked_at(
            press,
            StartStage::Verifying(VerificationStage::Recording { channel, notify_role }),
            request,
        ),
    ensures
        ({
            let done = run(
                at(press, StartStage::Verifying(VerificationStage::Recording { channel, notify_role })),
                request,
                store,
                platform,
            );
            &&& creations(done.requests) == 0
            &&& done.store == with_session(store, press.guild, press.member.id, channel)
        }),
{
    let stage = StartStage::Verifying(VerificationStage::Recording { channel, notify_role });
    let response = answer(store, request, platform);
    let next = spec_step(at(press, stage), response);
    session_requests_effect(store, press.guild, press.member.id, channel);
    let after = with_session(store, press.guild, press.member.id, channel);
    notifying_run(press, next.1, after, left(request, platform));
    let rest = run(next.0, next.1, after, left(request, platform));
    creations_after_first(request, rest.requests);
}

proof fn granting_run(
    press: Press,
    channel: u64,
    notify_role: u64,
    request: Request,
    store: Store,
    platform: Seq<Response>,
)
    requires
        request is GrantAccess,
    ensures
        ({
            let done = run(
                at(press, StartStage::Verifying(VerificationStage::Granting { channel, notify_role })),
                request,
                store,
                platform,
            );
            &&& creations(done.requests) == 0
            &&& done.outcome == Outcome::Completed ==> done.store == with_session(
                store,
                press.guild,
                press.member.id,
                channel,
            )
        }),
{
    let stage = StartStage::Verifying(VerificationStage::Granting { channel, notify_role });
    let response = answer(store, request, platform);
    let next = spec_step(at(press, stage), response);
    if next.1 is BeginSession {
        recording_run(press, channel, notify_role, next.1, store, left(request, platform));
    }
    let rest = run(next.0, next.1, store, left(request, platform));
    creations_after_first(request, rest.requests);
}

proof fn creating_run(
    press: Press,
    notify_role: u64,
    request: Request,
    store: Store,
    platform: Seq<Response>,
)
    requires
        request is CreateChannel,
    ensures
        ({
            let done = run(
                at(press, StartStage::Verifying(VerificationStage::Creating { notify_role })),
                request,
                store,
                platform,
            );
            done.outcome == Outcome::Completed ==> opened_one(press, store, done)
        }),
{
    let stage = StartStage::Verifying(VerificationStage::Creating { notify_role });
    let response = answer(store, request, platform);
    let next = spec_step(at(press, stage), response);
    if let Response::Id(channel) = response {
        granting_run(press, channel, notify_role, next.1, store, left(request, platform));
    }
    let rest = run(next.0, next.1, store, left(request, platform));
    creations_after_first(request, rest.requests);
}

proof fn verifying_run(
    press: Press,
    stage: VerificationStage,
    request: Request,
    store: Store,
    platform: Seq<Response>,
)
    requires
        asked_at(press, StartStage::Verifying(stage), request),
        stage is ListingRoles || stage is LoadingNotifyRole || stage is LoadingCategory
            || stage is Creating,
    ensures
        ({
            let done = run(at(press, StartStage::Verifying(stage)), request, store, platform);
            done.outcome == Outcome::Completed ==> opened_one(press, store, done)
        }),
    decreases rank(at(press, StartStage::Verifying(stage))),
{
    if let VerificationStage::Creating { notify_role } = stage {
        creating_run(press, notify_role, request, store, platform);
    } else {
        let response = answer(store, request, platform);
        let next = spec_step(at(press, StartStage::Verifying(stage)), response);
        if let Workflow::Start { press: same, progress: Progress::Running(StartStage::Verifying(following)) } =
            next.0 {
            verifying_run(press, following, next.1, store, left(request, platform));
        }
        let rest = run(next.0, next.1, store, left(request, platform));
        creations_after_first(request, rest.requests);
    }
}

proof fn loading_run(press: Press, channel: u64, request: Request, store: Store, platform: Seq<Response>)
    requires
        asked_at(press, StartStage::Pending(PendingStage::Loading), request),
        session_of(store, press.guild, press.member.id) == Some(channel),
    ensures
        pointed_to(
            channel,
            store,
            run(at(press, StartStage::Pending(PendingStage::Loading)), request, store, platform),
        ),
{
    let stage = StartStage::Pending(PendingStage::Loading);
    let response = answer(store, request, platform);
    let next = spec_step(at(press, stage), response);
    closing_run(press, Outcome::Completed, next.1, store, left(request, platform));
    let rest = run(next.0, next.1, store, left(request, platform));
    creations_after_first(request, rest.requests);
}

proof fn checking_run(press: Press, request: Request, store: Store, platform: Seq<Response>)
    requires
        asked_at(press, StartStage::Pending(PendingStage::Checking), request),
    ensures
        ({
            let done = run(
                at(press, StartStage::Pending(PendingStage::Checking)),
                request,
                store,
                platform,
            );
            match session_of(store, press.guild, press.member.id) {
                Some(channel) => pointed_to(channel, store, done),
                None => done.outcome == Outcome::Completed ==> opened_one(press, store, done),
            }
        }),
{
    let stage = StartStage::Pending(PendingStage::Checking);
    let response = answer(store, request, platform);
    let next = spec_step(at(press, stage), response);
    let rest = run(next.0, next.1, store, left(request, platform));
    creations_after_first(request, rest.requests);
    match session_of(store, press.guild, press.member.id) {
        Some(channel) => {
            loading_run(press, channel, next.1, store, left(request, platform));
        },
        None => {
            if response == Response::Flag(false) {
                verifying_run(
                    press,
                    VerificationStage::ListingRoles,
                    next.1,
                    store,
                    left(request, platform),
                );
            } else if response == Response::Flag(true) {
                reveal_with_fuel(run, 2);
            }
        },
    }
}

proof fn acknowledging_run(press: Press, request: Request, store: Store, platform: Seq<Response>)
    requires
        request is Acknowledge,
    ensures
        ({
            let done = run(at(press, StartStage::Acknowledging), request, store, platform);
            match session_of(store, press.guild, press.member.id) {
                Some(channel) => pointed_to(channel, store, done),
                None => done.outcome == Outcome::Completed ==> opened_one(press, store, done),
            }
        }),
{
    let stage = StartStage::Acknowledging;
    let response = answer(store, request, platform);
    let next = spec_step(at(press, stage), response);
    let rest = run(next.0, next.1, store, left(request, platform));
    creations_after_first(request, rest.requests);
    if response == Response::Done {
        checking_run(press, next.1, store, left(request, platform));
    }
}

/// What the press of the control that asks to join comes to.
///
/// For a member who is under verification nothing is created and nothing
/// written, whatever the platform answers; where the workflow comes to its
/// end, it ends by pointing the member to their channel. For any other
/// member, a workflow that comes to its end has asked for exactly one
/// channel and recorded exactly the verification of the member in it.
pub proof fn request_to_join_run(
    press: Press,
    custom_id: String,
    store: Store,
    platform: Seq<Response>,
)
    requires
        custom_id@ == ONBOARDING_START@,
    ensures
        ({
            let event = request_to_join(press, custom_id);
            let done = run(spec_listener(event).0, spec_listener(event).1, store, platform);
            match session_of(store, press.guild, press.member.id) {
                Some(channel) => pointed_to(channel, store, done),
                None => done.outcome == Outcome::Completed ==> opened_one(press, store, done),
            }
        }),
{
    let event = request_to_join(press, custom_id);
    let start = spec_listener(event);
    let response = answer(store, start.1, platform);
    let next = spec_step(start.0, response);
    let rest = run(next.0, next.1, store, left(start.1, platform));
    creations_after_first(start.1, rest.requests);
    if response == Response::Flag(true) {
        acknowledging_run(press, next.1, store, left(start.1, platform));
    }
}

/// A request to join that is made twice opens one verification: if the
/// first press comes to its end for a member who was not under
/// verification, it has asked for exactly one channel and recorded the
/// member's verification in it; the second press, whatever the platform
/// answers, asks for no channel, writes nothing, and, where it comes to its
/// end, ends by pointing the member to that channel.
pub proof fn start_twice_opens_one(
    press: Press,
    custom_id: String,
    store: Store,
    first: Seq<Response>,
    second: Seq<Response>,
)
    requires
        custom_id@ == ONBOARDING_START@,
        session_of(store, press.guild, press.member.id) is None,
    ensures
        ({
            let event = request_to_join(press, custom_id);
            let one = run(spec_listener(event).0, spec_listener(event).1, store, first);
            let two = run(spec_listener(event).0, spec_listener(event).1, one.store, second);
            one.outcome == Outcome::Completed ==> {
                &&& opened_one(press, store, one)
                &&& session_of(one.store, press.guild, press.member.id) matches Some(channel)
                    && pointed_to(channel, one.store, two)
                &&& creations(one.requests) + creations(two.requests) == 1
            }
        }),
{
    let event = request_to_join(press, custom_id);
    let one = run(spec_listener(event).0, spec_listener(event).1, store, first);
    request_to_join_run(press, custom_id, store, first);
    request_to_join_run(press, custom_id, one.store, second);
}

} // verus!
