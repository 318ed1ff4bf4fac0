//! The verifications that the store records, and what it means for the
//! records to agree.

use crate::engine::{save, writes, Request, Response};
use crate::store::{apply, apply_all, id_at, Field, Record, Store, StoreCommand, Value};
use crate::world::store_after;
use vstd::prelude::*;

verus! {

/// The channel in which `member` of `guild` is under verification, if they
/// are.
pub open spec fn session_of(store: Store, guild: u64, member: u64) -> Option<u64> {
    id_at(store, Record::Validation { guild, member }, Field::Channel)
}

/// The member for whom `channel` is a verification channel, if it is one.
pub open spec fn owner_of(store: Store, channel: u64) -> Option<u64> {
    id_at(store, Record::ChannelToUser, Field::Id(channel))
}

/// The records of verifications agree: every member under verification
/// owns their channel, every verification channel belongs to a member who
/// is under verification in it, and no channel serves two verifications.
pub open spec fn consistent(store: Store) -> bool {
    &&& forall|guild: u64, member: u64|
        #[trigger] session_of(store, guild, member) matches Some(channel) ==> owner_of(
            store,
            channel,
        ) == Some(member)
    &&& forall|channel: u64|
        #[trigger] owner_of(store, channel) matches Some(member) ==> exists|guild: u64|
            #[trigger] session_of(store, guild, member) == Some(channel)
    &&& forall|guild: u64, member: u64, other_guild: u64, other_member: u64|
        session_of(store, guild, member) is Some && #[trigger] session_of(store, guild, member)
            == #[trigger] session_of(store, other_guild, other_member) ==> guild == other_guild
            && member == other_member
}

/// None of the identifiers that the platform will hand out is a
/// verification channel already.
pub open spec fn fresh(store: Store, platform: Seq<Response>) -> bool {
    forall|i: int|
        0 <= i < platform.len() ==> (#[trigger] platform[i] matches Response::Id(channel)
            ==> owner_of(store, channel) is None)
}

/// Whether the store is in a state in which the request may be carried
/// out: a verification is recorded only for a member who has none and in a
/// channel that serves none, and a verification is forgotten only as it is
/// recorded.
pub open spec fn justified(store: Store, request: Request) -> bool {
    match request {
        Request::BeginSession { guild, member, channel } => {
            &&& session_of(store, guild, member) is None
            &&& owner_of(store, channel) is None
        },
        Request::EndSession { guild, member, channel } => session_of(store, guild, member) == Some(
            channel,
        ),
        _ => true,
    }
}

/// The field that a write is made to.
pub open spec fn target(command: StoreCommand) -> (Record, Field) {
    match command {
        StoreCommand::Put { record, field, .. } => (record, field),
        StoreCommand::Delete { record, field } => (record, field),
    }
}

/// Whether a field is one of those that record verifications.
pub open spec fn records_session(key: (Record, Field)) -> bool {
    match key.0 {
        Record::Validation { .. } => true,
        Record::ChannelToUser => true,
        Record::UserToChannel => true,
        _ => false,
    }
}

/// Writes leave alone every field that none of them is made to.
pub proof fn writes_keep_other_fields(store: Store, commands: Seq<StoreCommand>, key: (Record, Field))
    requires
        forall|i: int| 0 <= i < commands.len() ==> target(#[trigger] commands[i]) != key,
    ensures
        apply_all(store, commands).contains_key(key) == store.contains_key(key),
        apply_all(store, commands)[key] == store[key],
    decreases commands.len(),
{
    if commands.len() > 0 {
        let rest = commands.skip(1);
        assert forall|i: int| 0 <= i < rest.len() implies target(#[trigger] rest[i]) != key by {
            assert(rest[i] == commands[i + 1]);
        }
        writes_keep_other_fields(apply(store, commands[0]), rest, key);
    }
}

/// The store after a verification has been recorded.
pub open spec fn with_session(store: Store, guild: u64, member: u64, channel: u64) -> Store {
    store.insert((Record::Validation { guild, member }, Field::Channel), Value::Id(channel)).insert(
        (Record::ChannelToUser, Field::Id(channel)),
        Value::Id(member),
    ).insert((Record::UserToChannel, Field::Id(member)), Value::Id(channel))
}

/// The store after a verification has been forgotten.
pub open spec fn without_session(store: Store, guild: u64, member: u64, channel: u64) -> Store {
    store.remove((Record::Validation { guild, member }, Field::Channel)).remove(
        (Record::UserToChannel, Field::Id(member)),
    ).remove((Record::ChannelToUser, Field::Id(channel)))
}

/// What the two requests that record and forget a verification do to the
/// store.
pub proof fn session_requests_effect(store: Store, guild: u64, member: u64, channel: u64)
    ensures
        store_after(store, Request::BeginSession { guild, member, channel }) == with_session(
            store,
            guild,
            member,
            channel,
        ),
        store_after(store, Request::EndSession { guild, member, channel }) == without_session(
            store,
            guild,
            member,
            channel,
        ),
{
    reveal_with_fuel(apply_all, 4);
}

/// Every write of a request other than the two that record and forget a
/// verification is made to a field that records no verification.
pub proof fn other_requests_spare_sessions(request: Request)
    requires
        !(request is BeginSession),
        !(request is EndSession),
    ensures
        forall|i: int|
            0 <= i < writes(request).len() ==> !records_session(
                target(#[trigger] writes(request)[i]),
            ),
{
    match request {
        Request::SaveConfiguration { guild, configuration } => {
            let all = save(guild, configuration);
            assert forall|i: int| 0 <= i < all.len() implies (#[trigger] target(all[i])).0
                == Record::Guild(guild) by {}
        },
        _ => {},
    }
}

/// A request other than the two that record and forget a verification
/// leaves every record of a verification as it is.
pub proof fn other_requests_keep_sessions(store: Store, request: Request)
    requires
        !(request is BeginSession),
        !(request is EndSession),
    ensures
        forall|guild: u64, member: u64|
            #[trigger] session_of(store_after(store, request), guild, member) == session_of(
                store,
                guild,
                member,
            ),
        forall|channel: u64|
            #[trigger] owner_of(store_after(store, request), channel) == owner_of(store, channel),
{
    other_requests_spare_sessions(request);
    assert forall|guild: u64, member: u64|
        #[trigger] session_of(store_after(store, request), guild, member) == session_of(
            store,
            guild,
            member,
        ) by {
        writes_keep_other_fields(
            store,
            writes(request),
            (Record::Validation { guild, member }, Field::Channel),
        );
    }
    assert forall|channel: u64|
        #[trigger] owner_of(store_after(store, request), channel) == owner_of(store, channel) by {
        writes_keep_other_fields(store, writes(request), (Record::ChannelToUser, Field::Id(channel)));
    }
}

/// Recording a verification for a member who has none, in a channel that
/// serves none, keeps the records in agreement.
pub proof fn begin_session_keeps_consistency(store: Store, guild: u64, member: u64, channel: u64)
    requires
        consistent(store),
        session_of(store, guild, member) is None,
        owner_of(store, channel) is None,
    ensures
        consistent(with_session(store, guild, member, channel)),
        session_of(with_session(store, guild, member, channel), guild, member) == Some(channel),
        owner_of(with_session(store, guild, member, channel), channel) == Some(member),
{
    let after = with_session(store, guild, member, channel);
    assert forall|g: u64, m: u64| (g != guild || m != member) implies #[trigger] session_of(
        after,
        g,
        m,
    ) == session_of(store, g, m) by {}
    assert forall|c: u64| c != channel implies #[trigger] owner_of(after, c) == owner_of(
        store,
        c,
    ) by {}
    assert forall|c: u64| #[trigger] owner_of(after, c) is Some implies exists|g: u64|
        #[trigger] session_of(after, g, owner_of(after, c).unwrap()) == Some(c) by {
        let m = owner_of(after, c).unwrap();
        if c == channel {
            assert(session_of(after, guild, member) == Some(channel));
        } else {
            let g = choose|g: u64| #[trigger] session_of(store, g, m) == Some(c);
            assert(session_of(after, g, m) == Some(c));
        }
    }
    assert forall|g: u64, m: u64, g2: u64, m2: u64|
        session_of(after, g, m) is Some && #[trigger] session_of(after, g, m)
            == #[trigger] session_of(after, g2, m2) implies g == g2 && m == m2 by {
        if g == guild && m == member {
            if g2 != guild || m2 != member {
                assert(session_of(store, g2, m2) == Some(channel));
            }
        } else if g2 == guild && m2 == member {
            assert(session_of(store, g, m) == Some(channel));
        } else {
            assert(session_of(store, g, m) == session_of(store, g2, m2));
        }
    }
}

/// Forgetting a verification as it is recorded keeps the records in
/// agreement.
pub proof fn end_session_keeps_consistency(store: Store, guild: u64, member: u64, channel: u64)
    requires
        consistent(store),
        session_of(store, guild, member) == Some(channel),
    ensures
        consistent(without_session(store, guild, member, channel)),
        session_of(without_session(store, guild, member, channel), guild, member) is None,
        owner_of(without_session(store, guild, member, channel), channel) is None,
{
    let after = without_session(store, guild, member, channel);
    assert forall|g: u64, m: u64| (g != guild || m != member) implies #[trigger] session_of(
        after,
        g,
        m,
    ) == session_of(store, g, m) by {}
    assert forall|c: u64| c != channel implies #[trigger] owner_of(after, c) == owner_of(
        store,
        c,
    ) by {}
    assert forall|g: u64, m: u64| #[trigger] session_of(after, g, m) is Some implies owner_of(
        after,
        session_of(after, g, m).unwrap(),
    ) == Some(m) by {
        let c = session_of(after, g, m).unwrap();
        if c == channel {
            assert(session_of(store, g, m) == session_of(store, guild, member));
        }
    }
    assert forall|c: u64| #[trigger] owner_of(after, c) is Some implies exists|g: u64|
        #[trigger] session_of(after, g, owner_of(after, c).unwrap()) == Some(c) by {
        let m = owner_of(after, c).unwrap();
        let g = choose|g: u64| #[trigger] session_of(store, g, m) == Some(c);
        assert(session_of(after, g, m) == Some(c));
    }
    assert forall|g: u64, m: u64, g2: u64, m2: u64|
        session_of(after, g, m) is Some && #[trigger] session_of(after, g, m)
            == #[trigger] session_of(after, g2, m2) implies g == g2 && m == m2 by {
        assert(session_of(store, g, m) == session_of(store, g2, m2));
    }
}

/// A request that the store is in a state to carry out keeps the records
/// in agreement.
pub proof fn justified_request_keeps_consistency(store: Store, request: Request)
    requires
        consistent(store),
        justified(store, request),
    ensures
        consistent(store_after(store, request)),
{
    match request {
        Request::BeginSession { guild, member, channel } => {
            session_requests_effect(store, guild, member, channel);
            begin_session_keeps_consistency(store, guild, member, channel);
        },
        Request::EndSession { guild, member, channel } => {
            session_requests_effect(store, guild, member, channel);
            end_session_keeps_consistency(store, guild, member, channel);
        },
        _ => {
            other_requests_keep_sessions(store, request);
            let after = store_after(store, request);
            assert forall|c: u64| #[trigger] owner_of(after, c) is Some implies exists|g: u64|
                #[trigger] session_of(after, g, owner_of(after, c).unwrap()) == Some(c) by {
                let m = owner_of(after, c).unwrap();
                let g = choose|g: u64| #[trigger] session_of(store, g, m) == Some(c);
                assert(session_of(after, g, m) == Some(c));
            }
        },
    }
}

/// What a request with a single write does to the store.
pub proof fn written_to(store: Store, request: Request)
    requires
        writes(request).len() == 1,
    ensures
        store_after(store, request) == apply(store, writes(request)[0]),
{
    reveal_with_fuel(apply_all, 2);
}

} // verus!
