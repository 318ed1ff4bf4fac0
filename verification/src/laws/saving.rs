//! A configuration is recorded whole or not at all.

use crate::commands::setup::Proposal;
use crate::engine::{channel_id, role_id, save, Invocation, Outcome, Response};
use crate::events::{spec_listener, Command, Event};
use crate::models::GuildConfiguration;
use crate::sessions::{target, writes_keep_other_fields};
use crate::store::{apply, apply_all, flag_at, id_at, Field, Record, Store, StoreCommand, Value};
use crate::world::run;
use vstd::prelude::*;

verus! {

/// Every field of a community's configuration holds an identifier.
pub open spec fn populated(store: Store, guild: u64) -> bool {
    &&& id_at(store, Record::Guild(guild), Field::AdminRole) is Some
    &&& id_at(store, Record::Guild(guild), Field::ValidatedRole) is Some
    &&& id_at(store, Record::Guild(guild), Field::IntroductionsChannel) is Some
    &&& id_at(store, Record::Guild(guild), Field::RoleAssignmentChannel) is Some
    &&& id_at(store, Record::Guild(guild), Field::ValidationCategory) is Some
    &&& id_at(store, Record::Guild(guild), Field::WelcomeChannel) is Some
}

/// A community that reads as configured has every field of its
/// configuration.
pub open spec fn settled(store: Store, guild: u64) -> bool {
    flag_at(store, Record::Guild(guild), Field::Configured) ==> populated(store, guild)
}

/// The store says that the community is configured, and holds the roles
/// and channels of the given configuration.
pub open spec fn holds(store: Store, guild: u64, configuration: GuildConfiguration) -> bool {
    &&& flag_at(store, Record::Guild(guild), Field::Configured)
    &&& id_at(store, Record::Guild(guild), Field::AdminRole) == role_id(configuration.admin_role)
    &&& id_at(store, Record::Guild(guild), Field::ValidatedRole) == role_id(
        configuration.validated_role,
    )
    &&& id_at(store, Record::Guild(guild), Field::IntroductionsChannel) == channel_id(
        configuration.introductions_channel,
    )
    &&& id_at(store, Record::Guild(guild), Field::RoleAssignmentChannel) == channel_id(
        configuration.role_assignment_channel,
    )
    &&& id_at(store, Record::Guild(guild), Field::ValidationCategory) == channel_id(
        configuration.validation_category,
    )
    &&& id_at(store, Record::Guild(guild), Field::WelcomeChannel) == channel_id(
        configuration.welcome_channel,
    )
}

/// A write that puts an identifier into a field other than the flag that
/// says whether a community is configured.
pub open spec fn fills(command: StoreCommand) -> bool {
    match command {
        StoreCommand::Put { field, value, .. } => field != Field::Configured && value is Id,
        StoreCommand::Delete { .. } => false,
    }
}

/// Writes that only fill fields never make a community that reads as
/// configured lack a field.
pub proof fn filling_keeps_settled(store: Store, commands: Seq<StoreCommand>, guild: u64)
    requires
        settled(store, guild),
        forall|i: int| 0 <= i < commands.len() ==> fills(#[trigger] commands[i]),
    ensures
        settled(apply_all(store, commands), guild),
    decreases commands.len(),
{
    if commands.len() > 0 {
        let rest = commands.skip(1);
        assert forall|i: int| 0 <= i < rest.len() implies fills(#[trigger] rest[i]) by {
            assert(rest[i] == commands[i + 1]);
        }
        filling_keeps_settled(apply(store, commands[0]), rest, guild);
    }
}

/// A field that exactly one of a list of writes is made to holds what that
/// write puts there.
pub proof fn written_once(store: Store, commands: Seq<StoreCommand>, at: int)
    requires
        0 <= at < commands.len(),
        commands[at] is Put,
        forall|i: int|
            0 <= i < commands.len() && i != at ==> target(#[trigger] commands[i]) != target(
                commands[at],
            ),
    ensures
        apply_all(store, commands).contains_key(target(commands[at])),
        apply_all(store, commands)[target(commands[at])] == commands[at]->value,
    decreases commands.len(),
{
    let rest = commands.skip(1);
    if at == 0 {
        assert forall|i: int| 0 <= i < rest.len() implies target(#[trigger] rest[i]) != target(
            commands[0],
        ) by {
            assert(rest[i] == commands[i + 1]);
        }
        writes_keep_other_fields(
            apply(store, commands[0]),
            rest,
            target(commands[0]),
        );
    } else {
        assert forall|i: int| 0 <= i < rest.len() && i != at - 1 implies target(
            #[trigger] rest[i],
        ) != target(rest[at - 1]) by {
            assert(rest[i] == commands[i + 1]);
        }
        written_once(apply(store, commands[0]), rest, at - 1);
    }
}

/// The writes that record a complete configuration, one by one.
pub open spec fn save_of_complete(guild: u64, configuration: GuildConfiguration) -> Seq<
    StoreCommand,
> {
    let record = Record::Guild(guild);
    seq![
        StoreCommand::Put {
            record,
            field: Field::AdminRole,
            value: Value::Id(configuration.admin_role->0.id),
        },
        StoreCommand::Put {
            record,
            field: Field::ValidatedRole,
            value: Value::Id(configuration.validated_role->0.id),
        },
        StoreCommand::Put {
            record,
            field: Field::IntroductionsChannel,
            value: Value::Id(configuration.introductions_channel->0.id),
        },
        StoreCommand::Put {
            record,
            field: Field::RoleAssignmentChannel,
            value: Value::Id(configuration.role_assignment_channel->0.id),
        },
        StoreCommand::Put {
            record,
            field: Field::ValidationCategory,
            value: Value::Id(configuration.validation_category->0.id),
        },
        StoreCommand::Put {
            record,
            field: Field::WelcomeChannel,
            value: Value::Id(configuration.welcome_channel->0.id),
        },
        StoreCommand::Put {
            record,
            field: Field::Configured,
            value: Value::Flag(configuration.configured),
        },
    ]
}

/// A complete configuration is recorded by seven writes, of which the last
/// is the flag that says whether the community is configured.
pub proof fn save_writes_flag_last(guild: u64, configuration: GuildConfiguration)
    requires
        configuration.complete(),
    ensures
        save(guild, configuration) == save_of_complete(guild, configuration),
{
}

/// At no point while a configuration is being recorded does a community
/// read as configured that lacks a field: this holds after any number of
/// the writes, if it held before the first and the configuration is
/// configured only if it is complete.
pub proof fn save_is_never_half_written(
    store: Store,
    guild: u64,
    configuration: GuildConfiguration,
    written: int,
)
    requires
        settled(store, guild),
        configuration.configured ==> configuration.complete(),
        0 <= written <= save(guild, configuration).len(),
    ensures
        settled(apply_all(store, save(guild, configuration).take(written)), guild),
{
    let all = save(guild, configuration);
    let some = all.take(written);
    let flag = all.len() - 1;
    assert forall|i: int| 0 <= i < flag implies fills(#[trigger] all[i]) by {}
    if written <= flag {
        assert forall|i: int| 0 <= i < some.len() implies fills(#[trigger] some[i]) by {
            assert(some[i] == all[i]);
        }
        filling_keeps_settled(store, some, guild);
    } else {
        assert(some =~= all);
        if configuration.configured {
            save_holds_configuration(store, guild, configuration);
        } else {
            assert forall|i: int| 0 <= i < all.len() && i != flag implies target(
                #[trigger] all[i],
            ) != target(all[flag]) by {
                assert(fills(all[i]));
            }
            written_once(store, all, flag);
        }
    }
}

/// Once a complete configuration has been recorded, the community reads as
/// the configuration says, and holds every role and channel of it.
pub proof fn save_holds_configuration(store: Store, guild: u64, configuration: GuildConfiguration)
    requires
        configuration.complete(),
        configuration.configured,
    ensures
        holds(apply_all(store, save(guild, configuration)), guild, configuration),
        populated(apply_all(store, save(guild, configuration)), guild),
{
    save_writes_flag_last(guild, configuration);
    let all = save_of_complete(guild, configuration);
    written_once(store, all, 0);
    written_once(store, all, 1);
    written_once(store, all, 2);
    written_once(store, all, 3);
    written_once(store, all, 4);
    written_once(store, all, 5);
    written_once(store, all, 6);
}

/// The store after a setup that got as far as recording the proposal.
pub open spec fn configured_as(store: Store, guild: u64, proposal: Proposal) -> Store {
    apply_all(store, save(guild, proposal.configuration()))
}

/// A setup leaves the store as it was, or records the whole of an
/// acceptable proposal.
///
/// A proposal with a channel of the wrong kind is never recorded, and the
/// setup does not end as carried out. A community that is set up is left
/// alone unless the proposal asks for a new setup. A setup that ends as
/// carried out leaves the community configured with every role and channel
/// of the proposal. In no case does a community that had every field of
/// its configuration, or did not read as configured, come to read as
/// configured while it lacks a field.
pub proof fn setup_is_all_or_nothing(
    call: Invocation,
    proposal: Proposal,
    store: Store,
    platform: Seq<Response>,
)
    ensures
        ({
            let start = spec_listener(Event::SlashCommand { call, command: Command::Setup(proposal) });
            let done = run(start.0, start.1, store, platform);
            let configured = flag_at(store, Record::Guild(call.guild), Field::Configured);
            &&& done.store == store || done.store == configured_as(store, call.guild, proposal)
            &&& proposal.fault() is Some || (configured && !proposal.renews()) ==> done.store
                == store && done.outcome != Outcome::Completed
            &&& done.outcome == Outcome::Completed ==> holds(
                done.store,
                call.guild,
                proposal.configuration(),
            )
            &&& settled(store, call.guild) ==> settled(done.store, call.guild)
        }),
{
    reveal_with_fuel(run, 4);
    if proposal.fault() is None {
        save_holds_configuration(store, call.guild, proposal.configuration());
    }
}

} // verus!
