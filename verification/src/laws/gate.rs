//! A community that is not set up is told so, and nothing happens in it.

use crate::commands::spec_serves_guild;
use crate::engine::{Invocation, Outcome, Press, Request, Response};
use crate::events::{spec_listener, Command, Event};
use crate::laws::detachment::pressed;
use crate::notices::Notice;
use crate::store::{flag_at, Field, Record, Store};
use crate::world::run;
use vstd::prelude::*;

verus! {

/// Whether the store says that a community is set up.
pub open spec fn set_up(store: Store, guild: u64) -> bool {
    flag_at(store, Record::Guild(guild), Field::Configured)
}

/// In a community that is not set up, every command but the setup itself
/// asks whether the community is set up, tells the caller that it is not,
/// and does nothing else, whatever the platform answers. The store stays as
/// it is, and the command ends as turned away if the platform delivers the
/// notice, and as a failed call if it does not.
pub proof fn command_in_unconfigured_community_is_turned_away(
    call: Invocation,
    command: Command,
    store: Store,
    platform: Seq<Response>,
)
    requires
        !(command is Setup),
        !set_up(store, call.guild),
    ensures
        ({
            let start = spec_listener(Event::SlashCommand { call, command });
            let done = run(start.0, start.1, store, platform);
            &&& done.requests == seq![
                spec_serves_guild(call.guild),
                Request::Reply { notice: Notice::NotConfigured },
            ]
            &&& done.store == store
            &&& done.outcome == if platform.len() > 0 && (platform[0] is Done || platform[0] is Id) {
                Outcome::NotConfigured
            } else {
                Outcome::ExternalCallFailure
            }
        }),
{
    reveal_with_fuel(run, 3);
}

/// In a community that is not set up, the press of a control asks whether
/// the community is set up and does nothing else.
pub proof fn press_in_unconfigured_community_does_nothing(
    press: Press,
    custom_id: String,
    store: Store,
    platform: Seq<Response>,
)
    requires
        !set_up(store, press.guild),
    ensures
        ({
            let start = spec_listener(pressed(press, custom_id));
            let done = run(start.0, start.1, store, platform);
            &&& done.requests == seq![spec_serves_guild(press.guild)]
            &&& done.store == store
            &&& done.outcome == Outcome::NotConfigured
        }),
{
    reveal_with_fuel(run, 2);
}

} // verus!
