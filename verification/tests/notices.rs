use poucet::engine::Failure;
use poucet::errors::{classify, error_handler, failure_of, FrameworkFailure};
use poucet::identifiers::Component;
use poucet::models::Member;
use poucet::notices::{
    archived_controls, archived_name, member_channel_name, Button, ButtonStyle, Notice, DENIAL_REASON,
};

fn wanderer() -> Member {
    Member { id: 77, name: "Wanderer".to_string(), discriminator: 42 }
}

fn archive(style: ButtonStyle, disabled: bool) -> Button {
    Button { component: Component::OnboardingArchive, style, label: "Archive", emoji: None, disabled }
}

fn delete() -> Button {
    Button {
        component: Component::OnboardingDelete,
        style: ButtonStyle::Danger,
        label: "Delete",
        emoji: None,
        disabled: false,
    }
}

#[test]
fn not_configured_notice_is_for_the_caller_only() {
    let message = Notice::NotConfigured.message();
    assert_eq!(
        message.content,
        "I am not configured to work on this server! Have an admin configure me using the /setup command."
    );
    assert!(message.ephemeral);
    assert_eq!(message.embed, None);
    assert!(message.buttons.is_empty());
}

#[test]
fn refusals_are_for_the_caller_only() {
    let rights = Notice::InsufficientRights.message();
    assert_eq!(rights.content, "This is an admin command, you do not have the required rights to run it!");
    assert!(rights.ephemeral);
    let approval = Notice::ApprovalWrongChannel.message();
    assert_eq!(
        approval.content,
        "The member approval command must be run in the corresponding validation channel."
    );
    assert!(approval.ephemeral);
    let denial = Notice::DenialWrongChannel.message();
    assert_eq!(
        denial.content,
        "The member denial command must be run in the corresponding validation channel."
    );
    assert!(denial.ephemeral);
}

#[test]
fn setup_notices() {
    let already = Notice::AlreadyConfigured.message();
    assert_eq!(
        already.content,
        "I'm already configured to serve this guild! Run this command again with the `anew` parameter set to `true` to reconfigure me."
    );
    assert!(already.ephemeral);
    let incorrect = Notice::IncorrectConfiguration.message();
    assert_eq!(
        incorrect.content,
        "Got incorrect configuration, please make sure the values you pass are of the right type!"
    );
    assert!(incorrect.ephemeral);
    let all_set = Notice::AllSet.message();
    assert_eq!(all_set.content, "🙌 All set! Poucet is now ready to use 🤖✨");
    assert!(!all_set.ephemeral);
}

#[test]
fn pong_is_public() {
    let message = Notice::Pong.message();
    assert_eq!(message.content, "Pong!");
    assert!(!message.ephemeral);
}

#[test]
fn notify_role_notice_mentions_the_role() {
    let message = Notice::NotifyRoleSet { role: 31 }.message();
    assert_eq!(message.content, "✅ Set <@&31> as the staff role to notify when new members join");
    assert!(!message.ephemeral);
}

#[test]
fn approval_notice_offers_to_archive_or_delete() {
    let message = Notice::Approved { profile: wanderer() }.message();
    assert_eq!(message.content, "Approved <@77> (Wanderer#42)");
    assert!(!message.ephemeral);
    assert_eq!(message.embed, None);
    assert_eq!(message.buttons, vec![archive(ButtonStyle::Secondary, false), delete()]);
}

#[test]
fn denial_notice_has_no_controls() {
    let message = Notice::Denied { profile: wanderer() }.message();
    assert_eq!(message.content, "Denied <@77> (Wanderer#42)");
    assert!(message.buttons.is_empty());
}

#[test]
fn welcome_points_to_roles_and_introductions() {
    let message =
        Notice::Welcome { member: 77, role_assignment_channel: 500, introductions_channel: 600 }
            .message();
    assert_eq!(
        message.content,
        "👋 Welcome <@77> to Transpouce! Feel free to grab some roles in <#500>, and to write a few words about yourself in <#600> if you like. Have a pleasant stay here! 🤗"
    );
}

#[test]
fn join_request_replies() {
    assert_eq!(
        Notice::RequestReceived.message().content,
        "Your request to join the server has been received. Follow the ping!"
    );
    assert_eq!(
        Notice::AlreadyRequested { channel: 900 }.message().content,
        "You already asked to join the server! Your request is being discussed in <#900>."
    );
}

#[test]
fn member_left_notice_is_an_embed_with_controls() {
    let message = Notice::MemberLeft { profile: wanderer() }.message();
    assert_eq!(message.content, "");
    let embed = message.embed.unwrap();
    assert_eq!(embed.colour, 0x992D22);
    assert_eq!(embed.title, "Member left");
    assert_eq!(embed.description, "<@77> (Wanderer#42) has left the server");
    assert_eq!(message.buttons, vec![archive(ButtonStyle::Primary, false), delete()]);
}

#[test]
fn wait_notice_calls_member_and_staff() {
    let message = Notice::Wait { member: 77, notify_role: 31 }.message();
    assert_eq!(message.content, "<@77> <@&31>");
    let embed = message.embed.unwrap();
    assert_eq!(embed.colour, 0x6FC6E2);
    assert_eq!(embed.title, "");
    assert_eq!(
        embed.description,
        "**Hey there! 👋**\n\nHold on, a staff member will be with you soon to help you get started.\n\nTo speed up the validation process, can you already tell us a few words about you, how or where you found out about this server, what brings you here, etc.? Thank you! 😁"
    );
    assert!(message.buttons.is_empty());
}

#[test]
fn welcome_instructions_carry_the_enter_control() {
    let message = Notice::WelcomeInstructions.message();
    assert_eq!(message.content, "");
    let embed = message.embed.unwrap();
    assert_eq!(embed.colour, 0x6FC6E2);
    assert_eq!(embed.title, "Welcome to Transpouce! 👋");
    assert_eq!(
        embed.description,
        "This server is a safe space for discussion and exchange among trans and/or questioning people who are living in the Netherlands. It is open to 18+ people only, and is not tied to any existing organization, association or group.\n\nThe main language of the server is English.\n\nTo keep our space safe and gezellig, we have a simple verification process for new members in place. By clicking the button below, you'll be added to a private channel with the server staff, where we'll ask you some questions and get to know each other a little! <:transkitty:1000713242236178442>"
    );
    assert_eq!(
        message.buttons,
        vec![Button {
            component: Component::OnboardingStart,
            style: ButtonStyle::Primary,
            label: "Enter",
            emoji: Some('🚪'),
            disabled: false,
        }]
    );
    assert_eq!(message.buttons[0].component.custom_id(), "onboarding_start");
}

#[test]
fn archived_message_keeps_deleting_only() {
    assert_eq!(archived_controls(), vec![archive(ButtonStyle::Primary, true), delete()]);
}

#[test]
fn archived_channel_is_marked() {
    assert_eq!(archived_name("wanderer-0042"), "📦-wanderer-0042");
}

#[test]
fn verification_channel_is_named_after_the_tag() {
    assert_eq!(member_channel_name(&wanderer()), "Wanderer-0042");
    let long = Member { id: 1, name: "a#b".to_string(), discriminator: 12345 };
    assert_eq!(member_channel_name(&long), "a-b-12345");
}

#[test]
fn denial_reason_is_fixed() {
    assert_eq!(DENIAL_REASON, "Denied at validation");
}

#[test]
fn status_404_means_not_found() {
    assert_eq!(classify(Some(404)), Failure::NotFound);
}

#[test]
fn other_statuses_are_other_failures() {
    assert_eq!(classify(Some(403)), Failure::Other);
    assert_eq!(classify(Some(500)), Failure::Other);
    assert_eq!(classify(None), Failure::Other);
}

#[test]
fn errors_without_a_status_are_other_failures() {
    assert_eq!(failure_of(&serenity::Error::Other("lost")), Failure::Other);
}

#[test]
fn unreadable_argument_is_answered() {
    let failure = FrameworkFailure::ArgumentParse { input: Some("blorp".to_string()) };
    let message = error_handler(&failure).unwrap();
    assert_eq!(
        message.content,
        "Sorry, I didn't understand your command! Can you double-check your input?\nFor the record, here's the part I didn't understand (if any): blorp"
    );
    assert!(message.ephemeral);
    assert_eq!(message.embed, None);
    assert!(message.buttons.is_empty());
}

#[test]
fn unreadable_argument_without_input_is_answered() {
    let message = error_handler(&FrameworkFailure::ArgumentParse { input: None }).unwrap();
    assert_eq!(
        message.content,
        "Sorry, I didn't understand your command! Can you double-check your input?\nFor the record, here's the part I didn't understand (if any): "
    );
}

#[test]
fn other_framework_failures_call_for_no_reply() {
    assert_eq!(error_handler(&FrameworkFailure::Setup), None);
    assert_eq!(error_handler(&FrameworkFailure::EventHandler), None);
    assert_eq!(error_handler(&FrameworkFailure::Command), None);
    assert_eq!(error_handler(&FrameworkFailure::Other), None);
}
