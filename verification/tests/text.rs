use poucet::identifiers::Component;
use poucet::models::ConfigurationError;
use poucet::store::{Field, Record};
use poucet::text::decimal_string;

#[test]
fn decimal_of_zero_is_a_single_digit() {
    assert_eq!(decimal_string(0), "0");
}

#[test]
fn decimal_of_small_numbers() {
    assert_eq!(decimal_string(7), "7");
    assert_eq!(decimal_string(10), "10");
    assert_eq!(decimal_string(409), "409");
}

#[test]
fn decimal_of_the_largest_number() {
    assert_eq!(decimal_string(u64::MAX), "18446744073709551615");
}

#[test]
fn decimal_agrees_with_the_standard_rendering() {
    for n in [1u64, 9, 99, 100, 1000713242236178442, 12345678901234567890] {
        assert_eq!(decimal_string(n), format!("{}", n));
    }
}

#[test]
fn record_keys_follow_the_scheme() {
    assert_eq!(Record::Guild(42).key(), "guild:42");
    assert_eq!(Record::Onboarding(42).key(), "onboarding:42");
    assert_eq!(Record::Validation { guild: 42, member: 7 }.key(), "validation:42:7");
    assert_eq!(Record::ChannelToUser.key(), "validation_channel_to_user");
    assert_eq!(Record::UserToChannel.key(), "validation_user_to_channel");
}

#[test]
fn record_keys_keep_guild_and_member_apart() {
    let one = Record::Validation { guild: 1, member: 23 }.key();
    let other = Record::Validation { guild: 12, member: 3 }.key();
    assert_ne!(one, other);
}

#[test]
fn field_names_follow_the_scheme() {
    assert_eq!(Field::Configured.name(), "configured");
    assert_eq!(Field::AdminRole.name(), "admin_role");
    assert_eq!(Field::ValidatedRole.name(), "validated_role");
    assert_eq!(Field::IntroductionsChannel.name(), "introductions_channel");
    assert_eq!(Field::RoleAssignmentChannel.name(), "role_assignment_channel");
    assert_eq!(Field::ValidationCategory.name(), "validation_category");
    assert_eq!(Field::WelcomeChannel.name(), "welcome_channel");
    assert_eq!(Field::WelcomeMessage.name(), "welcome_message");
    assert_eq!(Field::NotifyRole.name(), "notify_role");
    assert_eq!(Field::Channel.name(), "channel");
    assert_eq!(Field::Id(1000713242236178442).name(), "1000713242236178442");
}

#[test]
fn controls_are_recognised_by_their_names() {
    assert_eq!(Component::from_custom_id("onboarding_start"), Some(Component::OnboardingStart));
    assert_eq!(Component::from_custom_id("onboarding_archive"), Some(Component::OnboardingArchive));
    assert_eq!(Component::from_custom_id("onboarding_delete"), Some(Component::OnboardingDelete));
    assert_eq!(Component::from_custom_id("setup_onboarding"), Some(Component::SetupOnboarding));
    assert_eq!(Component::from_custom_id("setup_go_back"), Some(Component::SetupGoBack));
    assert_eq!(Component::from_custom_id("setup_done"), Some(Component::SetupDone));
}

#[test]
fn unknown_names_are_no_controls() {
    assert_eq!(Component::from_custom_id(""), None);
    assert_eq!(Component::from_custom_id("onboarding_star"), None);
    assert_eq!(Component::from_custom_id("Onboarding_Start"), None);
}

#[test]
fn every_control_goes_by_its_own_name() {
    for component in [
        Component::OnboardingStart,
        Component::OnboardingArchive,
        Component::OnboardingDelete,
        Component::SetupOnboarding,
        Component::SetupGoBack,
        Component::SetupDone,
    ] {
        assert_eq!(Component::from_custom_id(component.custom_id()), Some(component));
    }
}

#[test]
fn configuration_errors_name_the_channel() {
    assert_eq!(
        ConfigurationError::IntroductionsChannel(3).message(),
        "given introductions channel (id: 3) is not a guild channel"
    );
    assert_eq!(
        ConfigurationError::RoleAssignmentChannel(4).message(),
        "given role assignment channel (id: 4) is not a guild channel"
    );
    assert_eq!(
        ConfigurationError::ValidationCategory(5).message(),
        "given validation channel (id: 5) is not a category channel"
    );
    assert_eq!(
        ConfigurationError::WelcomeChannel(6).message(),
        "given welcome channel (id: 6) is not a guild channel"
    );
}
