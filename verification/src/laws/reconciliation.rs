//! The instructions for newcomers are posted again exactly when they are
//! gone.

use crate::engine::{Failure, Outcome, Request, Response};
use crate::events::{spec_listener, Event};
use crate::laws::gate::set_up;
use crate::notices::Notice;
use crate::sessions::written_to;
use crate::store::{id_at, Field, Record, Store, Value};
use crate::world::run;
use vstd::prelude::*;

verus! {

/// The channel in which the store says the instructions stand.
pub open spec fn welcome_channel(store: Store, guild: u64) -> Option<u64> {
    id_at(store, Record::Guild(guild), Field::WelcomeChannel)
}

/// The message that the store says holds the instructions.
pub open spec fn welcome_message(store: Store, guild: u64) -> Option<u64> {
    id_at(store, Record::Guild(guild), Field::WelcomeMessage)
}

/// The return of a community into view.
pub open spec fn reconnected(guild: u64) -> Event {
    Event::GuildCreate { guild, is_new: false }
}

/// The store in which `message` is recorded as the one that holds the
/// instructions.
pub open spec fn with_welcome_message(store: Store, guild: u64, message: u64) -> Store {
    store.insert((Record::Guild(guild), Field::WelcomeMessage), Value::Id(message))
}

/// Where the recorded message is still there, nothing is posted and
/// nothing is written: the store is asked four questions, the message is
/// fetched, and that is all.
pub proof fn standing_instructions_are_left_alone(
    guild: u64,
    channel: u64,
    message: u64,
    store: Store,
    platform: Seq<Response>,
)
    requires
        set_up(store, guild),
        welcome_channel(store, guild) == Some(channel),
        welcome_message(store, guild) == Some(message),
        platform.len() > 0,
        platform[0] == Response::Done,
    ensures
        ({
            let start = spec_listener(reconnected(guild));
            let done = run(start.0, start.1, store, platform);
            &&& done.store == store
            &&& done.outcome == Outcome::Completed
            &&& done.requests.len() == 5
            &&& done.requests.last() == (Request::FetchMessage { channel, message })
        }),
{
    reveal_with_fuel(run, 6);
}

/// Where the platform reports that the recorded message is not found, the
/// instructions are posted in the welcome channel, and the message that
/// holds them takes the place of the recorded one.
pub proof fn missing_instructions_are_posted_again(
    guild: u64,
    channel: u64,
    message: u64,
    posted: u64,
    store: Store,
    platform: Seq<Response>,
)
    requires
        set_up(store, guild),
        welcome_channel(store, guild) == Some(channel),
        welcome_message(store, guild) == Some(message),
        platform.len() > 1,
        platform[0] == Response::Failed(Failure::NotFound),
        platform[1] == Response::Id(posted),
    ensures
        ({
            let start = spec_listener(reconnected(guild));
            let done = run(start.0, start.1, store, platform);
            &&& done.store == with_welcome_message(store, guild, posted)
            &&& welcome_message(done.store, guild) == Some(posted)
            &&& done.outcome == Outcome::Completed
            &&& done.requests.len() == 7
            &&& done.requests[5] == (Request::Send { channel, notice: Notice::WelcomeInstructions })
        }),
{
    reveal_with_fuel(run, 8);
    written_to(store, Request::RecordWelcomeMessage { guild, message: posted });
}

/// Where fetching the recorded message fails in any other way, nothing is
/// posted and nothing is written.
pub proof fn instructions_are_not_posted_on_other_failures(
    guild: u64,
    channel: u64,
    message: u64,
    store: Store,
    platform: Seq<Response>,
)
    requires
        set_up(store, guild),
        welcome_channel(store, guild) == Some(channel),
        welcome_message(store, guild) == Some(message),
        platform.len() == 0 || (platform[0] != Response::Done && platform[0] != Response::Failed(
            Failure::NotFound,
        )),
    ensures
        ({
            let start = spec_listener(reconnected(guild));
            let done = run(start.0, start.1, store, platform);
            &&& done.store == store
            &&& done.outcome == Outcome::ExternalCallFailure
            &&& done.requests.len() == 5
        }),
{
    reveal_with_fuel(run, 6);
}

} // verus!
