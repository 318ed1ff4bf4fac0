use poucet::models::{Channel, ChannelKind, ConfigurationError, GuildConfiguration, Role};

fn guild(id: u64) -> Channel {
    Channel { id, kind: ChannelKind::Guild }
}

fn category(id: u64) -> Channel {
    Channel { id, kind: ChannelKind::Category }
}

#[test]
fn new_accepts_channels_of_the_right_kinds() {
    let configuration = GuildConfiguration::new(
        Role { id: 1 },
        Role { id: 2 },
        guild(3),
        guild(4),
        category(5),
        guild(6),
    )
    .unwrap();
    assert!(configuration.configured);
    assert_eq!(configuration.admin_role, Some(Role { id: 1 }));
    assert_eq!(configuration.validated_role, Some(Role { id: 2 }));
    assert_eq!(configuration.introductions_channel, Some(guild(3)));
    assert_eq!(configuration.role_assignment_channel, Some(guild(4)));
    assert_eq!(configuration.validation_category, Some(category(5)));
    assert_eq!(configuration.welcome_channel, Some(guild(6)));
}

#[test]
fn new_reports_the_first_channel_of_the_wrong_kind() {
    let result = GuildConfiguration::new(
        Role { id: 1 },
        Role { id: 2 },
        guild(3),
        category(4),
        guild(5),
        category(6),
    );
    assert_eq!(result, Err(ConfigurationError::RoleAssignmentChannel(4)));
}

#[test]
fn new_examines_introductions_first() {
    let result = GuildConfiguration::new(
        Role { id: 1 },
        Role { id: 2 },
        category(3),
        category(4),
        guild(5),
        category(6),
    );
    assert_eq!(result, Err(ConfigurationError::IntroductionsChannel(3)));
}

#[test]
fn new_wants_a_category_for_verification_channels() {
    let result =
        GuildConfiguration::new(Role { id: 1 }, Role { id: 2 }, guild(3), guild(4), guild(5), guild(6));
    assert_eq!(result, Err(ConfigurationError::ValidationCategory(5)));
}

#[test]
fn new_refuses_a_private_welcome_channel() {
    let private = Channel { id: 6, kind: ChannelKind::Private };
    let result =
        GuildConfiguration::new(Role { id: 1 }, Role { id: 2 }, guild(3), guild(4), category(5), private);
    assert_eq!(result, Err(ConfigurationError::WelcomeChannel(6)));
}

#[test]
fn default_configuration_is_not_configured() {
    let configuration = GuildConfiguration::default();
    assert!(!configuration.configured);
    assert_eq!(configuration.admin_role, None);
    assert_eq!(configuration.validated_role, None);
    assert_eq!(configuration.introductions_channel, None);
    assert_eq!(configuration.role_assignment_channel, None);
    assert_eq!(configuration.validation_category, None);
    assert_eq!(configuration.welcome_channel, None);
}
