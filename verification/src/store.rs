//! The records that the engine keeps in the key-value store, and a model of
//! the store itself.
//!
//! The store holds named records; each record holds named fields. The
//! engine reads and writes single fields only.

use crate::text::{decimal, decimal_is_digits, decimal_is_injective, decimal_string, is_digit};
use vstd::prelude::*;
use vstd::string::*;

verus! {

/// A record of the store.
#[derive(Clone, Copy, Debug, PartialEq, Eq, Structural)]
pub enum Record {
    /// The configuration of a community.
    Guild(u64),
    /// The onboarding settings of a community.
    Onboarding(u64),
    /// The pending verification of one member of one community.
    Validation { guild: u64, member: u64 },
    /// For each verification channel, the member it was opened for.
    ChannelToUser,
    /// For each member under verification, their channel.
    UserToChannel,
}

impl Record {
    /// The key under which the record is stored.
    pub open spec fn key_text(self) -> Seq<char> {
        match self {
            Record::Guild(guild) => "guild:"@ + decimal(guild as nat),
            Record::Onboarding(guild) => "onboarding:"@ + decimal(guild as nat),
            Record::Validation { guild, member } => "validation:"@ + decimal(guild as nat) + ":"@
                + decimal(member as nat),
            Record::ChannelToUser => "validation_channel_to_user"@,
            Record::UserToChannel => "validation_user_to_channel"@,
        }
    }

    /// Renders the key under which the record is stored.
    pub fn key(&self) -> (key: String)
        ensures
            key@ == self.key_text(),
    {
        match self {
            Record::Guild(guild) => {
                let mut key = String::from_str("guild:");
                key.append(decimal_string(*guild).as_str());
                key
            },
            Record::Onboarding(guild) => {
                let mut key = String::from_str("onboarding:");
                key.append(decimal_string(*guild).as_str());
                key
            },
            Record::Validation { guild, member } => {
                let mut key = String::from_str("validation:");
                key.append(decimal_string(*guild).as_str());
                key.append(":");
                key.append(decimal_string(*member).as_str());
                key
            },
            Record::ChannelToUser => String::from_str("validation_channel_to_user"),
            Record::UserToChannel => String::from_str("validation_user_to_channel"),
        }
    }
}

/// A field of a record.
#[derive(Clone, Copy, Debug, PartialEq, Eq, Structural)]
pub enum Field {
    Configured,
    AdminRole,
    ValidatedRole,
    IntroductionsChannel,
    RoleAssignmentChannel,
    ValidationCategory,
    WelcomeChannel,
    WelcomeMessage,
    NotifyRole,
    Channel,
    /// A field named by an identifier, in the two records that map
    /// channels to members and back.
    Id(u64),
}

impl Field {
    /// The name of the field within its record.
    pub open spec fn name_text(self) -> Seq<char> {
        match self {
            Field::Configured => "configured"@,
            Field::AdminRole => "admin_role"@,
            Field::ValidatedRole => "validated_role"@,
            Field::IntroductionsChannel => "introductions_channel"@,
            Field::RoleAssignmentChannel => "role_assignment_channel"@,
            Field::ValidationCategory => "validation_category"@,
            Field::WelcomeChannel => "welcome_channel"@,
            Field::WelcomeMessage => "welcome_message"@,
            Field::NotifyRole => "notify_role"@,
            Field::Channel => "channel"@,
            Field::Id(id) => decimal(id as nat),
        }
    }

    /// Renders the name of the field.
    pub fn name(&self) -> (name: String)
        ensures
            name@ == self.name_text(),
    {
        match self {
            Field::Configured => String::from_str("configured"),
            Field::AdminRole => String::from_str("admin_role"),
            Field::ValidatedRole => String::from_str("validated_role"),
            Field::IntroductionsChannel => String::from_str("introductions_channel"),
            Field::RoleAssignmentChannel => String::from_str("role_assignment_channel"),
            Field::ValidationCategory => String::from_str("validation_category"),
            Field::WelcomeChannel => String::from_str("welcome_channel"),
            Field::WelcomeMessage => String::from_str("welcome_message"),
            Field::NotifyRole => String::from_str("notify_role"),
            Field::Channel => String::from_str("channel"),
            Field::Id(id) => decimal_string(*id),
        }
    }
}

/// What a field holds.
#[derive(Clone, Copy, Debug, PartialEq, Eq, Structural)]
pub enum Value {
    Flag(bool),
    Id(u64),
}

/// A single write to the store.
#[derive(Clone, Copy, Debug, PartialEq, Eq, Structural)]
pub enum StoreCommand {
    Put { record: Record, field: Field, value: Value },
    Delete { record: Record, field: Field },
}

/// The model of the store: the fields that are present, each with its value.
pub type Store = Map<(Record, Field), Value>;

/// The store after one write.
pub open spec fn apply(store: Store, command: StoreCommand) -> Store {
    match command {
        StoreCommand::Put { record, field, value } => store.insert((record, field), value),
        StoreCommand::Delete { record, field } => store.remove((record, field)),
    }
}

/// The store after a list of writes, performed in order.
pub open spec fn apply_all(store: Store, commands: Seq<StoreCommand>) -> Store
    decreases commands.len(),
{
    if commands.len() == 0 {
        store
    } else {
        apply_all(apply(store, commands[0]), commands.skip(1))
    }
}

/// Whether the field is present.
pub open spec fn present(store: Store, record: Record, field: Field) -> bool {
    store.contains_key((record, field))
}

/// The flag that a field holds. A field that is absent, or that holds no
/// flag, reads as `false`.
pub open spec fn flag_at(store: Store, record: Record, field: Field) -> bool {
    present(store, record, field) && store[(record, field)] == Value::Flag(true)
}

/// The identifier that a field holds, if it holds one.
pub open spec fn id_at(store: Store, record: Record, field: Field) -> Option<u64> {
    if present(store, record, field) {
        match store[(record, field)] {
            Value::Id(id) => Some(id),
            Value::Flag(_) => None,
        }
    } else {
        None
    }
}

/// Two texts that are equal behind the same opening are equal.
proof fn same_opening(opening: Seq<char>, a: Seq<char>, b: Seq<char>)
    requires
        opening + a == opening + b,
    ensures
        a == b,
{
    assert(a =~= (opening + a).subrange(opening.len() as int, (opening + a).len() as int));
    assert(b =~= (opening + b).subrange(opening.len() as int, (opening + b).len() as int));
}

/// Two pairs of numbers that are written alike, each pair with a colon
/// between its numerals, are the same pair.
proof fn pair_is_injective(a: nat, b: nat, c: nat, d: nat)
    requires
        decimal(a) + ":"@ + decimal(b) == decimal(c) + ":"@ + decimal(d),
    ensures
        a == c,
        b == d,
{
    reveal_strlit(":");
    decimal_is_digits(a);
    decimal_is_digits(c);
    let left = decimal(a) + ":"@ + decimal(b);
    let right = decimal(c) + ":"@ + decimal(d);
    let m = decimal(a).len() as int;
    let n = decimal(c).len() as int;
    assert(left[m] == ':');
    assert(right[n] == ':');
    if m < n {
        assert(right[m] == decimal(c)[m]);
        assert(is_digit(decimal(c)[m]));
    }
    if n < m {
        assert(left[n] == decimal(a)[n]);
        assert(is_digit(decimal(a)[n]));
    }
    assert(m == n);
    assert(decimal(a) =~= left.subrange(0, m));
    assert(decimal(c) =~= right.subrange(0, m));
    decimal_is_injective(a, c);
    assert(decimal(b) =~= left.subrange(m + 1, left.len() as int));
    assert(decimal(d) =~= right.subrange(m + 1, right.len() as int));
    decimal_is_injective(b, d);
}

/// No two records are stored under the same key.
pub proof fn record_keys_are_distinct(a: Record, b: Record)
    requires
        a.key_text() == b.key_text(),
    ensures
        a == b,
{
    reveal_strlit("guild:");
    reveal_strlit("onboarding:");
    reveal_strlit("validation:");
    reveal_strlit(":");
    reveal_strlit("validation_channel_to_user");
    reveal_strlit("validation_user_to_channel");
    let x = a.key_text();
    let y = b.key_text();
    assert(x[0] == y[0]);
    match (a, b) {
        (Record::Guild(m), Record::Guild(n)) => {
            same_opening("guild:"@, decimal(m as nat), decimal(n as nat));
            decimal_is_injective(m as nat, n as nat);
        },
        (Record::Onboarding(m), Record::Onboarding(n)) => {
            same_opening("onboarding:"@, decimal(m as nat), decimal(n as nat));
            decimal_is_injective(m as nat, n as nat);
        },
        (
            Record::Validation { guild: g, member: m },
            Record::Validation { guild: h, member: n },
        ) => {
            assert(x =~= "validation:"@ + (decimal(g as nat) + ":"@ + decimal(m as nat)));
            assert(y =~= "validation:"@ + (decimal(h as nat) + ":"@ + decimal(n as nat)));
            same_opening(
                "validation:"@,
                decimal(g as nat) + ":"@ + decimal(m as nat),
                decimal(h as nat) + ":"@ + decimal(n as nat),
            );
            pair_is_injective(g as nat, m as nat, h as nat, n as nat);
        },
        (Record::Validation { guild, member }, Record::ChannelToUser) => {
            assert(x[10] == y[10]);
        },
        (Record::Validation { guild, member }, Record::UserToChannel) => {
            assert(x[10] == y[10]);
        },
        (Record::ChannelToUser, Record::Validation { guild, member }) => {
            assert(x[10] == y[10]);
        },
        (Record::UserToChannel, Record::Validation { guild, member }) => {
            assert(x[10] == y[10]);
        },
        (Record::ChannelToUser, Record::UserToChannel) => {
            assert(x[11] == y[11]);
        },
        (Record::UserToChannel, Record::ChannelToUser) => {
            assert(x[11] == y[11]);
        },
        _ => {},
    }
}

/// No two fields go by the same name.
pub proof fn field_names_are_distinct(a: Field, b: Field)
    requires
        a.name_text() == b.name_text(),
    ensures
        a == b,
{
    reveal_strlit("configured");
    reveal_strlit("admin_role");
    reveal_strlit("validated_role");
    reveal_strlit("introductions_channel");
    reveal_strlit("role_assignment_channel");
    reveal_strlit("validation_category");
    reveal_strlit("welcome_channel");
    reveal_strlit("welcome_message");
    reveal_strlit("notify_role");
    reveal_strlit("channel");
    let x = a.name_text();
    let y = b.name_text();
    assert(x.len() == y.len());
    assert(x[0] == y[0]);
    if let Field::Id(m) = a {
        decimal_is_digits(m as nat);
        assert(is_digit(x[0]));
    }
    if let Field::Id(n) = b {
        decimal_is_digits(n as nat);
        assert(is_digit(y[0]));
    }
    match (a, b) {
        (Field::Id(m), Field::Id(n)) => {
            decimal_is_injective(m as nat, n as nat);
        },
        (Field::WelcomeChannel, Field::WelcomeMessage) => {
            assert(x[8] == y[8]);
        },
        (Field::WelcomeMessage, Field::WelcomeChannel) => {
            assert(x[8] == y[8]);
        },
        _ => {},
    }
}

} // verus!
