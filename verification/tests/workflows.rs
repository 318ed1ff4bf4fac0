use std::collections::HashMap;

use poucet::commands::setup::Proposal;
use poucet::engine::{Deferral, Failure, Invocation, Outcome, Press, Request, Response};
use poucet::events::{listener, step, Command, Event, Interaction};
use poucet::models::{Channel, ChannelInfo, ChannelKind, Member, Role};
use poucet::notices::{archived_name, member_channel_name, Notice};
use poucet::store::{Field, Record, StoreCommand, Value};

const GUILD: u64 = 1000;
const OWNER: u64 = 1;
const ADMIN: u64 = 2;
const STRANGER: u64 = 3;
const ADMIN_ROLE: u64 = 10;
const VALIDATED_ROLE: u64 = 11;
const NOTIFY_ROLE: u64 = 12;
const INTRODUCTIONS: u64 = 20;
const ROLE_ASSIGNMENT: u64 = 21;
const CATEGORY: u64 = 22;
const WELCOME: u64 = 23;
const SYSTEM: u64 = 24;
const LOBBY: u64 = 25;

/// A store in memory and a platform that does what it is asked.
struct World {
    store: HashMap<(String, String), Value>,
    roles: Vec<u64>,
    holders: Vec<(u64, u64)>,
    members: Vec<Member>,
    channels: Vec<ChannelInfo>,
    messages: Vec<(u64, u64)>,
    access: Vec<(u64, u64, u64)>,
    next_id: u64,
    log: Vec<Request>,
    failing: Option<fn(&Request) -> Option<Failure>>,
}

fn newcomer() -> Member {
    Member { id: 77, name: "Wanderer".to_string(), discriminator: 42 }
}

impl World {
    fn new() -> World {
        World {
            store: HashMap::new(),
            roles: vec![ADMIN_ROLE, VALIDATED_ROLE, NOTIFY_ROLE],
            holders: vec![(ADMIN, ADMIN_ROLE)],
            members: vec![newcomer()],
            channels: vec![ChannelInfo { id: LOBBY, name: "lobby".to_string() }],
            messages: Vec::new(),
            access: Vec::new(),
            next_id: 5000,
            log: Vec::new(),
            failing: None,
        }
    }

    fn configured() -> World {
        let mut world = World::new();
        let outcome = world.handle(Event::SlashCommand {
            call: call(OWNER, LOBBY),
            command: Command::Setup(proposal(None)),
        });
        assert_eq!(outcome, Outcome::Completed);
        let outcome = world.handle(Event::SlashCommand {
            call: call(OWNER, LOBBY),
            command: Command::Configure { notify_role: NOTIFY_ROLE },
        });
        assert_eq!(outcome, Outcome::Completed);
        world.log.clear();
        world
    }

    fn key(record: &Record, field: &Field) -> (String, String) {
        (record.key(), field.name())
    }

    fn id_at(&self, record: Record, field: Field) -> Option<u64> {
        match self.store.get(&World::key(&record, &field)) {
            Some(Value::Id(id)) => Some(*id),
            _ => None,
        }
    }

    fn session_of(&self, member: u64) -> Option<u64> {
        self.id_at(Record::Validation { guild: GUILD, member }, Field::Channel)
    }

    fn owner_of(&self, channel: u64) -> Option<u64> {
        self.id_at(Record::ChannelToUser, Field::Id(channel))
    }

    fn perform(&mut self, request: &Request) -> Response {
        if let Some(failing) = self.failing {
            if let Some(failure) = failing(request) {
                return Response::Failed(failure);
            }
        }
        match request {
            Request::Flag { record, field } => Response::Flag(
                self.store.get(&World::key(record, field)) == Some(&Value::Flag(true)),
            ),
            Request::Lookup { record, field } => match self.store.get(&World::key(record, field)) {
                Some(Value::Id(id)) => Response::Id(*id),
                _ => Response::Failed(Failure::Other),
            },
            Request::Exists { record, field } => {
                Response::Flag(self.store.contains_key(&World::key(record, field)))
            }
            Request::BeginSession { .. }
            | Request::EndSession { .. }
            | Request::SaveConfiguration { .. }
            | Request::SetNotifyRole { .. }
            | Request::RecordWelcomeMessage { .. } => {
                for command in request.commands() {
                    match command {
                        StoreCommand::Put { record, field, value } => {
                            self.store.insert(World::key(&record, &field), value);
                        }
                        StoreCommand::Delete { record, field } => {
                            self.store.remove(&World::key(&record, &field));
                        }
                    }
                }
                Response::Done
            }
            Request::HasRole { user, role, .. } => {
                Response::Flag(self.holders.contains(&(*user, *role)))
            }
            Request::FetchMember { user, .. } => {
                match self.members.iter().find(|member| member.id == *user) {
                    Some(member) => Response::Profile(member.clone()),
                    None => Response::Failed(Failure::NotFound),
                }
            }
            Request::FetchRoles { .. } => Response::Roles(self.roles.clone()),
            Request::FetchChannels { .. } => Response::Channels(self.channels.clone()),
            Request::FetchMessage { channel, message } => {
                if self.messages.contains(&(*channel, *message)) {
                    Response::Done
                } else {
                    Response::Failed(Failure::NotFound)
                }
            }
            Request::Acknowledge { .. } => Response::Done,
            Request::CreateChannel { owner, .. } => {
                self.next_id += 1;
                self.channels.push(ChannelInfo { id: self.next_id, name: member_channel_name(owner) });
                Response::Id(self.next_id)
            }
            Request::GrantAccess { channel, member, allow } => {
                self.access.push((*channel, *member, *allow));
                Response::Done
            }
            Request::RevokeAccess { channel, member } => {
                self.access.retain(|entry| !(entry.0 == *channel && entry.1 == *member));
                Response::Done
            }
            Request::GrantRole { member, role, .. } => {
                self.holders.push((*member, *role));
                Response::Done
            }
            Request::Kick { member, .. } => {
                self.members.retain(|known| known.id != *member);
                Response::Done
            }
            Request::RenameChannel { channel, current } => {
                for known in self.channels.iter_mut() {
                    if known.id == *channel {
                        known.name = archived_name(current);
                    }
                }
                Response::Done
            }
            Request::DeleteChannel { channel } => {
                self.channels.retain(|known| known.id != *channel);
                Response::Done
            }
            Request::Reply { .. } | Request::FollowUp { .. } | Request::DisableArchive => {
                Response::Done
            }
            Request::Send { channel, .. } => {
                self.next_id += 1;
                self.messages.push((*channel, self.next_id));
                Response::Id(self.next_id)
            }
            Request::Finish(_) => unreachable!(),
        }
    }

    fn handle(&mut self, event: Event) -> Outcome {
        let (mut workflow, mut request) = listener(event);
        let mut answers = 0;
        loop {
            if let Request::Finish(outcome) = request {
                return outcome;
            }
            answers += 1;
            assert!(answers <= 14);
            self.log.push(request.clone());
            let response = self.perform(&request);
            let next = step(workflow, response);
            workflow = next.0;
            request = next.1;
        }
    }

    fn press(&mut self, member: Member, channel: u64, custom_id: &str) -> Outcome {
        self.handle(Event::InteractionCreate {
            interaction: Interaction::MessageComponent {
                press: Press { guild: GUILD, channel, member },
                custom_id: custom_id.to_string(),
            },
        })
    }

    fn command(&mut self, actor: u64, channel: u64, command: Command) -> Outcome {
        self.handle(Event::SlashCommand { call: call(actor, channel), command })
    }

    fn created(&self) -> usize {
        self.log.iter().filter(|request| matches!(request, Request::CreateChannel { .. })).count()
    }

    fn replies(&self) -> Vec<Notice> {
        let mut notices = Vec::new();
        for request in &self.log {
            match request {
                Request::Reply { notice } | Request::FollowUp { notice } => {
                    notices.push(notice.clone())
                }
                _ => {}
            }
        }
        notices
    }

    fn changes(&self) -> usize {
        self.log
            .iter()
            .filter(|request| {
                matches!(
                    request,
                    Request::GrantRole { .. }
                        | Request::Kick { .. }
                        | Request::RevokeAccess { .. }
                        | Request::GrantAccess { .. }
                        | Request::BeginSession { .. }
                        | Request::EndSession { .. }
                        | Request::SaveConfiguration { .. }
                        | Request::SetNotifyRole { .. }
                        | Request::RecordWelcomeMessage { .. }
                        | Request::CreateChannel { .. }
                        | Request::DeleteChannel { .. }
                        | Request::RenameChannel { .. }
                )
            })
            .count()
    }
}

fn call(actor: u64, channel: u64) -> Invocation {
    Invocation { guild: GUILD, channel, actor, owner: OWNER, system_channel: Some(SYSTEM) }
}

fn proposal(anew: Option<bool>) -> Proposal {
    Proposal {
        admin_role: Role { id: ADMIN_ROLE },
        validated_role: Role { id: VALIDATED_ROLE },
        introductions_channel: Channel { id: INTRODUCTIONS, kind: ChannelKind::Guild },
        role_assignment_channel: Channel { id: ROLE_ASSIGNMENT, kind: ChannelKind::Guild },
        validation_category: Channel { id: CATEGORY, kind: ChannelKind::Category },
        welcome_channel: Channel { id: WELCOME, kind: ChannelKind::Guild },
        anew,
    }
}

#[test]
fn setup_records_the_configuration_with_the_flag_last() {
    let mut world = World::new();
    let outcome = world.command(OWNER, LOBBY, Command::Setup(proposal(None)));
    assert_eq!(outcome, Outcome::Completed);
    let guild = Record::Guild(GUILD);
    assert_eq!(world.id_at(guild, Field::AdminRole), Some(ADMIN_ROLE));
    assert_eq!(world.id_at(guild, Field::ValidatedRole), Some(VALIDATED_ROLE));
    assert_eq!(world.id_at(guild, Field::IntroductionsChannel), Some(INTRODUCTIONS));
    assert_eq!(world.id_at(guild, Field::RoleAssignmentChannel), Some(ROLE_ASSIGNMENT));
    assert_eq!(world.id_at(guild, Field::ValidationCategory), Some(CATEGORY));
    assert_eq!(world.id_at(guild, Field::WelcomeChannel), Some(WELCOME));
    assert_eq!(
        world.store.get(&("guild:1000".to_string(), "configured".to_string())),
        Some(&Value::Flag(true))
    );
    let commands = world.log[1].commands();
    assert_eq!(commands.len(), 7);
    assert_eq!(
        commands[0],
        StoreCommand::Put { record: guild, field: Field::AdminRole, value: Value::Id(ADMIN_ROLE) }
    );
    assert_eq!(
        commands[6],
        StoreCommand::Put { record: guild, field: Field::Configured, value: Value::Flag(true) }
    );
    assert_eq!(world.replies(), vec![Notice::AllSet]);
}

#[test]
fn setup_with_a_wrong_channel_writes_nothing() {
    let mut world = World::new();
    let mut wrong = proposal(None);
    wrong.validation_category = Channel { id: CATEGORY, kind: ChannelKind::Guild };
    let outcome = world.command(OWNER, LOBBY, Command::Setup(wrong));
    assert_eq!(outcome, Outcome::ConfigurationError);
    assert!(world.store.is_empty());
    assert_eq!(world.replies(), vec![Notice::IncorrectConfiguration]);
    assert_eq!(world.changes(), 0);
}

#[test]
fn setup_with_a_wrong_channel_keeps_the_earlier_configuration() {
    let mut world = World::configured();
    let before = world.store.clone();
    let mut wrong = proposal(Some(true));
    wrong.admin_role = Role { id: 99 };
    wrong.welcome_channel = Channel { id: WELCOME, kind: ChannelKind::Category };
    let outcome = world.command(OWNER, LOBBY, Command::Setup(wrong));
    assert_eq!(outcome, Outcome::ConfigurationError);
    assert_eq!(world.store, before);
}

#[test]
fn setup_leaves_a_configured_community_alone() {
    let mut world = World::configured();
    let before = world.store.clone();
    let mut other = proposal(None);
    other.admin_role = Role { id: 99 };
    let outcome = world.command(OWNER, LOBBY, Command::Setup(other));
    assert_eq!(outcome, Outcome::AlreadyConfigured);
    assert_eq!(world.store, before);
    assert_eq!(world.replies(), vec![Notice::AlreadyConfigured]);
    let mut declined = proposal(Some(false));
    declined.admin_role = Role { id: 99 };
    assert_eq!(world.command(OWNER, LOBBY, Command::Setup(declined)), Outcome::AlreadyConfigured);
}

#[test]
fn setup_anew_overwrites_the_configuration() {
    let mut world = World::configured();
    let mut other = proposal(Some(true));
    other.admin_role = Role { id: 99 };
    let outcome = world.command(OWNER, LOBBY, Command::Setup(other));
    assert_eq!(outcome, Outcome::Completed);
    assert_eq!(world.id_at(Record::Guild(GUILD), Field::AdminRole), Some(99));
}

#[test]
fn ping_answers_in_a_configured_community() {
    let mut world = World::configured();
    assert_eq!(world.command(STRANGER, LOBBY, Command::Ping), Outcome::Completed);
    assert_eq!(world.replies(), vec![Notice::Pong]);
}

#[test]
fn commands_in_an_unconfigured_community_are_turned_away() {
    for command in [
        Command::Ping,
        Command::Configure { notify_role: NOTIFY_ROLE },
        Command::Approve,
        Command::Deny,
    ] {
        let mut world = World::new();
        let outcome = world.command(OWNER, LOBBY, command);
        assert_eq!(outcome, Outcome::NotConfigured);
        assert_eq!(world.replies(), vec![Notice::NotConfigured]);
        assert_eq!(world.changes(), 0);
        assert!(world.store.is_empty());
        assert_eq!(
            world.log[0],
            Request::Flag { record: Record::Guild(GUILD), field: Field::Configured }
        );
        assert_eq!(world.log.len(), 2);
    }
}

#[test]
fn presses_in_an_unconfigured_community_do_nothing() {
    for name in ["onboarding_start", "onboarding_archive", "onboarding_delete"] {
        let mut world = World::new();
        let outcome = world.press(newcomer(), LOBBY, name);
        assert_eq!(outcome, Outcome::NotConfigured);
        assert_eq!(world.log.len(), 1);
        assert!(world.store.is_empty());
    }
}

#[test]
fn unknown_controls_are_ignored() {
    let mut world = World::configured();
    assert_eq!(world.press(newcomer(), LOBBY, "setup_done"), Outcome::Ignored);
    assert_eq!(world.press(newcomer(), LOBBY, "something_else"), Outcome::Ignored);
    assert_eq!(world.changes(), 0);
}

#[test]
fn events_without_a_workflow_are_ignored() {
    let mut world = World::configured();
    assert_eq!(world.handle(Event::Ready), Outcome::Ignored);
    assert_eq!(world.handle(Event::Other), Outcome::Ignored);
    assert_eq!(
        world.handle(Event::InteractionCreate { interaction: Interaction::Other }),
        Outcome::Ignored
    );
    assert!(world.log.is_empty());
}

#[test]
fn configure_is_for_administrators() {
    let mut world = World::configured();
    let outcome = world.command(STRANGER, LOBBY, Command::Configure { notify_role: 55 });
    assert_eq!(outcome, Outcome::AuthorizationDenied);
    assert_eq!(world.replies(), vec![Notice::InsufficientRights]);
    assert_eq!(world.id_at(Record::Onboarding(GUILD), Field::NotifyRole), Some(NOTIFY_ROLE));
    let outcome = world.command(ADMIN, LOBBY, Command::Configure { notify_role: 55 });
    assert_eq!(outcome, Outcome::Completed);
    assert_eq!(world.id_at(Record::Onboarding(GUILD), Field::NotifyRole), Some(55));
    assert_eq!(world.replies().last(), Some(&Notice::NotifyRoleSet { role: 55 }));
}

#[test]
fn the_owner_is_admitted_without_asking_the_platform() {
    let mut world = World::configured();
    let outcome = world.command(OWNER, LOBBY, Command::Configure { notify_role: 55 });
    assert_eq!(outcome, Outcome::Completed);
    assert!(!world.log.iter().any(|request| matches!(request, Request::HasRole { .. })));
}

#[test]
fn a_role_that_is_gone_is_an_error_of_configuration() {
    let mut world = World::configured();
    world.failing = Some(|request| match request {
        Request::HasRole { .. } => Some(Failure::NotFound),
        _ => None,
    });
    let outcome = world.command(ADMIN, LOBBY, Command::Approve);
    assert_eq!(outcome, Outcome::ConfigurationError);
    assert_eq!(world.changes(), 0);
}

#[test]
fn a_member_is_verified_and_approved() {
    let mut world = World::configured();
    let outcome = world.press(newcomer(), WELCOME, "onboarding_start");
    assert_eq!(outcome, Outcome::Completed);
    let channel = world.session_of(77).unwrap();
    assert_eq!(world.owner_of(channel), Some(77));
    assert_eq!(world.id_at(Record::UserToChannel, Field::Id(77)), Some(channel));
    assert_eq!(world.created(), 1);
    assert_eq!(
        world.log,
        vec![
            Request::Flag { record: Record::Guild(GUILD), field: Field::Configured },
            Request::Acknowledge { deferral: Deferral::EphemeralReply },
            Request::Exists {
                record: Record::Validation { guild: GUILD, member: 77 },
                field: Field::Channel
            },
            Request::FetchRoles { guild: GUILD },
            Request::Lookup { record: Record::Onboarding(GUILD), field: Field::NotifyRole },
            Request::Lookup { record: Record::Guild(GUILD), field: Field::ValidationCategory },
            Request::CreateChannel { guild: GUILD, category: CATEGORY, owner: newcomer() },
            Request::GrantAccess { channel, member: 77, allow: (1 << 10) | (1 << 11) | (1 << 16) },
            Request::BeginSession { guild: GUILD, member: 77, channel },
            Request::Send { channel, notice: Notice::Wait { member: 77, notify_role: NOTIFY_ROLE } },
            Request::FollowUp { notice: Notice::RequestReceived },
        ]
    );
    assert_eq!(
        world.channels.iter().find(|known| known.id == channel).unwrap().name,
        "Wanderer-0042"
    );
    assert_eq!(world.access, vec![(channel, 77, 0x10C00)]);

    world.log.clear();
    let outcome = world.command(ADMIN, channel, Command::Approve);
    assert_eq!(outcome, Outcome::Completed);
    assert!(world.holders.contains(&(77, VALIDATED_ROLE)));
    assert!(world.access.is_empty());
    assert_eq!(world.replies(), vec![Notice::Approved { profile: newcomer() }]);
    assert_eq!(
        world.log,
        vec![
            Request::Flag { record: Record::Guild(GUILD), field: Field::Configured },
            Request::Lookup { record: Record::Guild(GUILD), field: Field::AdminRole },
            Request::HasRole { guild: GUILD, user: ADMIN, role: ADMIN_ROLE },
            Request::Exists { record: Record::ChannelToUser, field: Field::Id(channel) },
            Request::Lookup { record: Record::ChannelToUser, field: Field::Id(channel) },
            Request::RevokeAccess { channel, member: 77 },
            Request::FetchMember { guild: GUILD, user: 77 },
            Request::Lookup { record: Record::Guild(GUILD), field: Field::ValidatedRole },
            Request::GrantRole { guild: GUILD, member: 77, role: VALIDATED_ROLE },
            Request::Reply { notice: Notice::Approved { profile: newcomer() } },
            Request::Lookup { record: Record::Guild(GUILD), field: Field::IntroductionsChannel },
            Request::Lookup { record: Record::Guild(GUILD), field: Field::RoleAssignmentChannel },
            Request::Send {
                channel: SYSTEM,
                notice: Notice::Welcome {
                    member: 77,
                    role_assignment_channel: ROLE_ASSIGNMENT,
                    introductions_channel: INTRODUCTIONS
                }
            },
        ]
    );
    assert_eq!(world.session_of(77), Some(channel));
}

#[test]
fn approval_without_a_system_channel_ends_after_the_confirmation() {
    let mut world = World::configured();
    world.press(newcomer(), WELCOME, "onboarding_start");
    let channel = world.session_of(77).unwrap();
    world.log.clear();
    let quiet = Invocation { system_channel: None, ..call(OWNER, channel) };
    let outcome = world.handle(Event::SlashCommand { call: quiet, command: Command::Approve });
    assert_eq!(outcome, Outcome::Completed);
    assert_eq!(
        world.log.last(),
        Some(&Request::Reply { notice: Notice::Approved { profile: newcomer() } })
    );
}

#[test]
fn start_twice_opens_one_verification() {
    let mut world = World::configured();
    assert_eq!(world.press(newcomer(), WELCOME, "onboarding_start"), Outcome::Completed);
    let channel = world.session_of(77).unwrap();
    let channels = world.channels.len();
    let store = world.store.clone();
    assert_eq!(world.press(newcomer(), WELCOME, "onboarding_start"), Outcome::Completed);
    assert_eq!(world.created(), 1);
    assert_eq!(world.channels.len(), channels);
    assert_eq!(world.store, store);
    assert_eq!(world.session_of(77), Some(channel));
    assert_eq!(
        world.replies(),
        vec![Notice::RequestReceived, Notice::AlreadyRequested { channel }]
    );
}

#[test]
fn start_fails_when_the_channel_cannot_be_created() {
    let mut world = World::configured();
    world.failing = Some(|request| match request {
        Request::CreateChannel { .. } => Some(Failure::Other),
        _ => None,
    });
    let outcome = world.press(newcomer(), WELCOME, "onboarding_start");
    assert_eq!(outcome, Outcome::ExternalCallFailure);
    assert_eq!(world.session_of(77), None);
    assert!(world.replies().is_empty());
}

#[test]
fn start_keeps_the_verification_when_the_notice_cannot_be_posted() {
    let mut world = World::configured();
    world.failing = Some(|request| match request {
        Request::Send { .. } => Some(Failure::Other),
        _ => None,
    });
    let outcome = world.press(newcomer(), WELCOME, "onboarding_start");
    assert_eq!(outcome, Outcome::ExternalCallFailure);
    let channel = world.session_of(77).unwrap();
    assert_eq!(world.owner_of(channel), Some(77));
}

#[test]
fn start_wants_the_notify_role_to_exist() {
    let mut world = World::configured();
    world.roles = vec![ADMIN_ROLE, VALIDATED_ROLE];
    let outcome = world.press(newcomer(), WELCOME, "onboarding_start");
    assert_eq!(outcome, Outcome::ConfigurationError);
    assert_eq!(world.created(), 0);
    assert_eq!(world.session_of(77), None);
}

#[test]
fn approve_in_a_wrong_channel_changes_nothing() {
    let mut world = World::configured();
    world.press(newcomer(), WELCOME, "onboarding_start");
    let store = world.store.clone();
    world.log.clear();
    let outcome = world.command(ADMIN, LOBBY, Command::Approve);
    assert_eq!(outcome, Outcome::WrongChannel);
    assert_eq!(world.replies(), vec![Notice::ApprovalWrongChannel]);
    assert_eq!(world.changes(), 0);
    assert_eq!(world.store, store);
    assert!(!world.holders.contains(&(77, VALIDATED_ROLE)));
}

#[test]
fn deny_in_a_wrong_channel_changes_nothing() {
    let mut world = World::configured();
    world.press(newcomer(), WELCOME, "onboarding_start");
    world.log.clear();
    let outcome = world.command(OWNER, LOBBY, Command::Deny);
    assert_eq!(outcome, Outcome::WrongChannel);
    assert_eq!(world.replies(), vec![Notice::DenialWrongChannel]);
    assert_eq!(world.changes(), 0);
    assert_eq!(world.members, vec![newcomer()]);
}

#[test]
fn deny_is_for_administrators() {
    let mut world = World::configured();
    world.press(newcomer(), WELCOME, "onboarding_start");
    let channel = world.session_of(77).unwrap();
    world.log.clear();
    let outcome = world.command(STRANGER, channel, Command::Deny);
    assert_eq!(outcome, Outcome::AuthorizationDenied);
    assert_eq!(world.changes(), 0);
    assert_eq!(world.members, vec![newcomer()]);
}

#[test]
fn deny_removes_the_member_and_keeps_the_verification() {
    let mut world = World::configured();
    world.press(newcomer(), WELCOME, "onboarding_start");
    let channel = world.session_of(77).unwrap();
    world.log.clear();
    let outcome = world.command(ADMIN, channel, Command::Deny);
    assert_eq!(outcome, Outcome::Completed);
    assert!(world.members.is_empty());
    assert_eq!(world.replies(), vec![Notice::Denied { profile: newcomer() }]);
    assert!(world.log.contains(&Request::Kick { guild: GUILD, member: 77 }));
    assert_eq!(world.session_of(77), Some(channel));
}

#[test]
fn archive_detaches_and_marks_the_channel() {
    let mut world = World::configured();
    world.press(newcomer(), WELCOME, "onboarding_start");
    let channel = world.session_of(77).unwrap();
    world.log.clear();
    let staff = Member { id: ADMIN, name: "Staff".to_string(), discriminator: 1 };
    let outcome = world.press(staff, channel, "onboarding_archive");
    assert_eq!(outcome, Outcome::Completed);
    assert_eq!(world.session_of(77), None);
    assert_eq!(world.owner_of(channel), None);
    assert_eq!(world.id_at(Record::UserToChannel, Field::Id(77)), None);
    assert_eq!(
        world.channels.iter().find(|known| known.id == channel).unwrap().name,
        "📦-Wanderer-0042"
    );
    assert_eq!(world.log.first(), Some(&Request::Flag {
        record: Record::Guild(GUILD),
        field: Field::Configured
    }));
    assert_eq!(world.log[1], Request::Acknowledge { deferral: Deferral::Update });
    assert_eq!(world.log.last(), Some(&Request::DisableArchive));
    assert!(world.log.contains(&Request::EndSession { guild: GUILD, member: 77, channel }));
}

#[test]
fn archive_of_a_detached_channel_only_marks_it() {
    let mut world = World::configured();
    let staff = Member { id: ADMIN, name: "Staff".to_string(), discriminator: 1 };
    let store = world.store.clone();
    let outcome = world.press(staff, LOBBY, "onboarding_archive");
    assert_eq!(outcome, Outcome::Completed);
    assert_eq!(world.store, store);
    assert_eq!(world.channels[0].name, "📦-lobby");
    assert_eq!(
        world.log.last(),
        Some(&Request::RenameChannel { channel: LOBBY, current: "lobby".to_string() })
    );
}

#[test]
fn archive_of_a_channel_that_is_gone_violates_an_invariant() {
    let mut world = World::configured();
    world.press(newcomer(), WELCOME, "onboarding_start");
    let channel = world.session_of(77).unwrap();
    world.channels.retain(|known| known.id != channel);
    let staff = Member { id: ADMIN, name: "Staff".to_string(), discriminator: 1 };
    let outcome = world.press(staff, channel, "onboarding_archive");
    assert_eq!(outcome, Outcome::InvariantViolation);
    assert_eq!(world.session_of(77), None);
}

#[test]
fn delete_detaches_and_deletes_the_channel() {
    let mut world = World::configured();
    world.press(newcomer(), WELCOME, "onboarding_start");
    let channel = world.session_of(77).unwrap();
    world.log.clear();
    let staff = Member { id: ADMIN, name: "Staff".to_string(), discriminator: 1 };
    let outcome = world.press(staff, channel, "onboarding_delete");
    assert_eq!(outcome, Outcome::Completed);
    assert_eq!(world.session_of(77), None);
    assert_eq!(world.owner_of(channel), None);
    assert!(!world.channels.iter().any(|known| known.id == channel));
    assert_eq!(world.log.last(), Some(&Request::DeleteChannel { channel }));
}

#[test]
fn archive_then_delete_is_delete() {
    let staff = Member { id: ADMIN, name: "Staff".to_string(), discriminator: 1 };
    let mut both = World::configured();
    both.press(newcomer(), WELCOME, "onboarding_start");
    let channel = both.session_of(77).unwrap();
    assert_eq!(both.press(staff.clone(), channel, "onboarding_archive"), Outcome::Completed);
    assert_eq!(both.press(staff.clone(), channel, "onboarding_delete"), Outcome::Completed);

    let mut alone = World::configured();
    alone.press(newcomer(), WELCOME, "onboarding_start");
    assert_eq!(alone.session_of(77), Some(channel));
    assert_eq!(alone.press(staff, channel, "onboarding_delete"), Outcome::Completed);

    assert_eq!(both.store, alone.store);
    assert_eq!(both.channels, alone.channels);
}

#[test]
fn delete_of_a_detached_channel_still_deletes_it() {
    let mut world = World::configured();
    let staff = Member { id: ADMIN, name: "Staff".to_string(), discriminator: 1 };
    let store = world.store.clone();
    let outcome = world.press(staff, LOBBY, "onboarding_delete");
    assert_eq!(outcome, Outcome::Completed);
    assert_eq!(world.store, store);
    assert!(world.channels.is_empty());
}

#[test]
fn member_leaving_is_reported_in_their_channel() {
    let mut world = World::configured();
    world.press(newcomer(), WELCOME, "onboarding_start");
    let channel = world.session_of(77).unwrap();
    world.log.clear();
    let outcome = world.handle(Event::GuildMemberRemoval { guild: GUILD, user: newcomer() });
    assert_eq!(outcome, Outcome::Completed);
    assert_eq!(
        world.log.last(),
        Some(&Request::Send { channel, notice: Notice::MemberLeft { profile: newcomer() } })
    );
    assert_eq!(world.session_of(77), Some(channel));
}

#[test]
fn member_leaving_without_a_verification_is_ignored() {
    let mut world = World::configured();
    let outcome = world.handle(Event::GuildMemberRemoval { guild: GUILD, user: newcomer() });
    assert_eq!(outcome, Outcome::Ignored);
    assert_eq!(world.log.len(), 1);
}

#[test]
fn the_welcome_message_is_posted_again_when_it_is_gone() {
    let mut world = World::configured();
    let outcome = world.handle(Event::GuildCreate { guild: GUILD, is_new: false });
    assert_eq!(outcome, Outcome::Completed);
    let first = world.id_at(Record::Guild(GUILD), Field::WelcomeMessage).unwrap();
    assert_eq!(world.messages, vec![(WELCOME, first)]);

    world.messages.clear();
    world.log.clear();
    let outcome = world.handle(Event::GuildCreate { guild: GUILD, is_new: false });
    assert_eq!(outcome, Outcome::Completed);
    let second = world.id_at(Record::Guild(GUILD), Field::WelcomeMessage).unwrap();
    assert_ne!(first, second);
    assert_eq!(world.messages, vec![(WELCOME, second)]);
    assert!(world.log.contains(&Request::FetchMessage { channel: WELCOME, message: first }));
    assert!(world.log.contains(&Request::Send {
        channel: WELCOME,
        notice: Notice::WelcomeInstructions
    }));

    world.log.clear();
    let outcome = world.handle(Event::GuildCreate { guild: GUILD, is_new: false });
    assert_eq!(outcome, Outcome::Completed);
    assert_eq!(world.id_at(Record::Guild(GUILD), Field::WelcomeMessage), Some(second));
    assert_eq!(world.messages, vec![(WELCOME, second)]);
    assert_eq!(world.changes(), 0);
    assert!(!world.log.iter().any(|request| matches!(request, Request::Send { .. })));
}

#[test]
fn the_welcome_message_is_not_posted_again_on_other_failures() {
    let mut world = World::configured();
    world.handle(Event::GuildCreate { guild: GUILD, is_new: false });
    let first = world.id_at(Record::Guild(GUILD), Field::WelcomeMessage);
    world.log.clear();
    world.failing = Some(|request| match request {
        Request::FetchMessage { .. } => Some(Failure::Other),
        _ => None,
    });
    let outcome = world.handle(Event::GuildCreate { guild: GUILD, is_new: false });
    assert_eq!(outcome, Outcome::ExternalCallFailure);
    assert_eq!(world.id_at(Record::Guild(GUILD), Field::WelcomeMessage), first);
    assert!(!world.log.iter().any(|request| matches!(request, Request::Send { .. })));
}

#[test]
fn a_community_that_was_just_joined_is_left_alone() {
    let mut world = World::configured();
    let outcome = world.handle(Event::GuildCreate { guild: GUILD, is_new: true });
    assert_eq!(outcome, Outcome::Ignored);
    assert!(world.log.is_empty());
}

#[test]
fn an_unconfigured_community_gets_no_welcome_message() {
    let mut world = World::new();
    let outcome = world.handle(Event::GuildCreate { guild: GUILD, is_new: false });
    assert_eq!(outcome, Outcome::NotConfigured);
    assert!(world.messages.is_empty());
}

#[test]
fn a_store_that_fails_ends_the_workflow() {
    let mut world = World::configured();
    world.failing = Some(|request| match request {
        Request::Flag { .. } => Some(Failure::Other),
        _ => None,
    });
    assert_eq!(world.command(OWNER, LOBBY, Command::Ping), Outcome::ExternalCallFailure);
    assert_eq!(world.press(newcomer(), WELCOME, "onboarding_start"), Outcome::ExternalCallFailure);
    assert!(world.replies().is_empty());
}

#[test]
fn a_workflow_that_has_ended_stays_ended() {
    let (workflow, request) = listener(Event::Ready);
    assert_eq!(request, Request::Finish(Outcome::Ignored));
    let (workflow, request) = step(workflow, Response::Done);
    assert_eq!(request, Request::Finish(Outcome::Ignored));
    let (_, request) = step(workflow, Response::Flag(true));
    assert_eq!(request, Request::Finish(Outcome::Ignored));
}

#[test]
fn forward_and_backward_records_agree_after_every_event() {
    let mut world = World::configured();
    let second = Member { id: 78, name: "Pilgrim".to_string(), discriminator: 7 };
    world.members.push(second.clone());
    let staff = Member { id: ADMIN, name: "Staff".to_string(), discriminator: 1 };
    let check = |world: &World| {
        for member in [77u64, 78] {
            if let Some(channel) = world.session_of(member) {
                assert_eq!(world.owner_of(channel), Some(member));
            }
        }
        for channel in world.channels.iter().map(|known| known.id) {
            if let Some(member) = world.owner_of(channel) {
                assert_eq!(world.session_of(member), Some(channel));
            }
        }
    };
    world.press(newcomer(), WELCOME, "onboarding_start");
    check(&world);
    world.press(second.clone(), WELCOME, "onboarding_start");
    check(&world);
    let first_channel = world.session_of(77).unwrap();
    let second_channel = world.session_of(78).unwrap();
    assert_ne!(first_channel, second_channel);
    world.command(ADMIN, first_channel, Command::Approve);
    check(&world);
    world.press(staff.clone(), first_channel, "onboarding_archive");
    check(&world);
    assert_eq!(world.session_of(77), None);
    assert_eq!(world.session_of(78), Some(second_channel));
    world.command(ADMIN, second_channel, Command::Deny);
    check(&world);
    world.press(staff, second_channel, "onboarding_delete");
    check(&world);
    assert_eq!(world.session_of(78), None);
}

#[test]
fn an_answer_of_the_wrong_kind_ends_the_workflow() {
    let (workflow, request) =
        listener(Event::SlashCommand { call: call(OWNER, LOBBY), command: Command::Ping });
    assert_eq!(request, Request::Flag { record: Record::Guild(GUILD), field: Field::Configured });
    let (_, request) = step(workflow, Response::Id(3));
    assert_eq!(request, Request::Finish(Outcome::ExternalCallFailure));
}

#[test]
fn a_reply_that_is_not_delivered_ends_the_workflow_as_a_failure() {
    let (workflow, _) =
        listener(Event::SlashCommand { call: call(OWNER, LOBBY), command: Command::Ping });
    let (workflow, request) = step(workflow, Response::Flag(true));
    assert_eq!(request, Request::Reply { notice: Notice::Pong });
    let (_, request) = step(workflow, Response::Failed(Failure::Other));
    assert_eq!(request, Request::Finish(Outcome::ExternalCallFailure));
}

#[test]
fn session_requests_write_three_fields() {
    let begin = Request::BeginSession { guild: 1, member: 2, channel: 3 };
    assert_eq!(
        begin.commands(),
        vec![
            StoreCommand::Put {
                record: Record::Validation { guild: 1, member: 2 },
                field: Field::Channel,
                value: Value::Id(3)
            },
            StoreCommand::Put {
                record: Record::ChannelToUser,
                field: Field::Id(3),
                value: Value::Id(2)
            },
            StoreCommand::Put {
                record: Record::UserToChannel,
                field: Field::Id(2),
                value: Value::Id(3)
            },
        ]
    );
    let end = Request::EndSession { guild: 1, member: 2, channel: 3 };
    assert_eq!(
        end.commands(),
        vec![
            StoreCommand::Delete {
                record: Record::Validation { guild: 1, member: 2 },
                field: Field::Channel
            },
            StoreCommand::Delete { record: Record::UserToChannel, field: Field::Id(2) },
            StoreCommand::Delete { record: Record::ChannelToUser, field: Field::Id(3) },
        ]
    );
}

#[test]
fn single_writes() {
    assert_eq!(
        Request::SetNotifyRole { guild: 1, role: 9 }.commands(),
        vec![StoreCommand::Put {
            record: Record::Onboarding(1),
            field: Field::NotifyRole,
            value: Value::Id(9)
        }]
    );
    assert_eq!(
        Request::RecordWelcomeMessage { guild: 1, message: 8 }.commands(),
        vec![StoreCommand::Put {
            record: Record::Guild(1),
            field: Field::WelcomeMessage,
            value: Value::Id(8)
        }]
    );
}

#[test]
fn requests_to_the_platform_write_nothing() {
    assert!(Request::DeleteChannel { channel: 3 }.commands().is_empty());
    assert!(Request::Flag { record: Record::Guild(1), field: Field::Configured }
        .commands()
        .is_empty());
    assert!(Request::Finish(Outcome::Completed).commands().is_empty());
}

#[test]
fn an_unset_configuration_only_clears_the_flag() {
    let request = Request::SaveConfiguration {
        guild: 1,
        configuration: poucet::models::GuildConfiguration::default(),
    };
    assert_eq!(
        request.commands(),
        vec![StoreCommand::Put {
            record: Record::Guild(1),
            field: Field::Configured,
            value: Value::Flag(false)
        }]
    );
}

#[test]
fn channels_are_found_by_their_id() {
    let channels = vec![
        ChannelInfo { id: 1, name: "one".to_string() },
        ChannelInfo { id: 2, name: "two".to_string() },
        ChannelInfo { id: 2, name: "again".to_string() },
    ];
    assert_eq!(
        poucet::events::find_channel(&channels, 2),
        Some(ChannelInfo { id: 2, name: "two".to_string() })
    );
    assert_eq!(poucet::events::find_channel(&channels, 3), None);
    assert_eq!(poucet::events::find_channel(&Vec::new(), 1), None);
}

#[test]
fn roles_are_found_in_a_listing() {
    assert!(poucet::events::lists_role(&vec![4, 5, 6], 6));
    assert!(!poucet::events::lists_role(&vec![4, 5, 6], 7));
    assert!(!poucet::events::lists_role(&Vec::new(), 7));
}

#[test]
fn join_requests_are_answered_by_what_is_pending() {
    assert_eq!(poucet::events::reply_to_join_request(None), Notice::RequestReceived);
    assert_eq!(
        poucet::events::reply_to_join_request(Some(9)),
        Notice::AlreadyRequested { channel: 9 }
    );
    assert_eq!(
        poucet::events::new_member_wait_notice(7, 12),
        Notice::Wait { member: 7, notify_role: 12 }
    );
    assert_eq!(poucet::events::welcome_instructions(), Notice::WelcomeInstructions);
}
