//! What the engine says to members and staff.

use crate::identifiers::Component;
use crate::models::Member;
use crate::platform::{
    blitz_blue, channel_mention, channel_mention_text, dark_red, member_tag, replace_hashes,
    role_mention, role_mention_text, tag_text, user_mention, user_mention_text, dashed, BLITZ_BLUE,
    DARK_RED,
};
use crate::text::{decimal, decimal_string};
use vstd::prelude::*;
use vstd::string::*;

verus! {

/// A message of the engine, before it is put into words.
#[derive(Clone, Debug, PartialEq, Eq)]
pub enum Notice {
    /// The community has not been set up.
    NotConfigured,
    /// The caller is neither the owner nor an administrator.
    InsufficientRights,
    /// An approval was asked for outside a verification channel.
    ApprovalWrongChannel,
    /// A denial was asked for outside a verification channel.
    DenialWrongChannel,
    /// The community is set up already.
    AlreadyConfigured,
    /// A proposed configuration was refused.
    IncorrectConfiguration,
    /// The community has been set up.
    AllSet,
    /// The answer to a ping.
    Pong,
    /// The role to notify of new requests has been recorded.
    NotifyRoleSet { role: u64 },
    /// A member has been approved; staff may now archive or delete the channel.
    Approved { profile: Member },
    /// A member has been denied.
    Denied { profile: Member },
    /// The public welcome of an approved member.
    Welcome { member: u64, role_assignment_channel: u64, introductions_channel: u64 },
    /// A request to join has been taken up.
    RequestReceived,
    /// A request to join is under discussion already.
    AlreadyRequested { channel: u64 },
    /// A member under verification has left; staff may archive or delete
    /// the channel.
    MemberLeft { profile: Member },
    /// Asks a new member to wait, and calls the staff.
    Wait { member: u64, notify_role: u64 },
    /// The standing instructions for newcomers.
    WelcomeInstructions,
}

pub const NOT_CONFIGURED: &'static str =
    "I am not configured to work on this server! Have an admin configure me using the /setup command.";

pub const INSUFFICIENT_RIGHTS: &'static str =
    "This is an admin command, you do not have the required rights to run it!";

pub const APPROVAL_WRONG_CHANNEL: &'static str =
    "The member approval command must be run in the corresponding validation channel.";

pub const DENIAL_WRONG_CHANNEL: &'static str =
    "The member denial command must be run in the corresponding validation channel.";

pub const ALREADY_CONFIGURED: &'static str =
    "I'm already configured to serve this guild! Run this command again with the `anew` parameter set to `true` to reconfigure me.";

pub const INCORRECT_CONFIGURATION: &'static str =
    "Got incorrect configuration, please make sure the values you pass are of the right type!";

pub const ALL_SET: &'static str = "\u{1F64C} All set! Poucet is now ready to use \u{1F916}\u{2728}";

pub const PONG: &'static str = "Pong!";

pub const NOTIFY_ROLE_OPENING: &'static str = "\u{2705} Set ";

pub const NOTIFY_ROLE_CLOSING: &'static str = " as the staff role to notify when new members join";

pub const APPROVED: &'static str = "Approved ";

pub const DENIED: &'static str = "Denied ";

pub const WELCOME_OPENING: &'static str = "\u{1F44B} Welcome ";

pub const WELCOME_ROLES: &'static str = " to Transpouce! Feel free to grab some roles in ";

pub const WELCOME_INTRODUCTIONS: &'static str = ", and to write a few words about yourself in ";

pub const WELCOME_CLOSING: &'static str = " if you like. Have a pleasant stay here! \u{1F917}";

pub const REQUEST_RECEIVED: &'static str =
    "Your request to join the server has been received. Follow the ping!";

pub const ALREADY_REQUESTED: &'static str =
    "You already asked to join the server! Your request is being discussed in ";

pub const MEMBER_LEFT_TITLE: &'static str = "Member left";

pub const MEMBER_LEFT_CLOSING: &'static str = " has left the server";

pub const WAIT_DESCRIPTION: &'static str =
    "**Hey there! \u{1F44B}**\n\nHold on, a staff member will be with you soon to help you get started.\n\nTo speed up the validation process, can you already tell us a few words about you, how or where you found out about this server, what brings you here, etc.? Thank you! \u{1F601}";

pub const WELCOME_TITLE: &'static str = "Welcome to Transpouce! \u{1F44B}";

pub const WELCOME_DESCRIPTION: &'static str =
    "This server is a safe space for discussion and exchange among trans and/or questioning people who are living in the Netherlands. It is open to 18+ people only, and is not tied to any existing organization, association or group.\n\nThe main language of the server is English.\n\nTo keep our space safe and gezellig, we have a simple verification process for new members in place. By clicking the button below, you'll be added to a private channel with the server staff, where we'll ask you some questions and get to know each other a little! <:transkitty:1000713242236178442>";

pub const ARCHIVE_LABEL: &'static str = "Archive";

pub const DELETE_LABEL: &'static str = "Delete";

pub const ENTER_LABEL: &'static str = "Enter";

/// The sign that goes before the name of an archived channel.
pub const ARCHIVE_MARK: &'static str = "\u{1F4E6}-";

/// The reason that the platform's audit log gives for the removal of a
/// member whose request was denied.
pub const DENIAL_REASON: &'static str = "Denied at validation";

/// How a control looks.
#[derive(Clone, Copy, Debug, PartialEq, Eq, Structural)]
pub enum ButtonStyle {
    Primary,
    Secondary,
    Danger,
}

/// A control on a message.
#[derive(Clone, Copy, Debug, PartialEq, Eq)]
pub struct Button {
    pub component: Component,
    pub style: ButtonStyle,
    pub label: &'static str,
    pub emoji: Option<char>,
    pub disabled: bool,
}

/// The framed part of a message. An empty title stands for none.
#[derive(Clone, Debug, PartialEq, Eq)]
pub struct Embed {
    pub colour: u32,
    pub title: String,
    pub description: String,
}

/// What an embed says.
pub ghost struct EmbedText {
    pub colour: u32,
    pub title: Seq<char>,
    pub description: Seq<char>,
}

impl View for Embed {
    type V = EmbedText;

    open spec fn view(&self) -> EmbedText {
        EmbedText { colour: self.colour, title: self.title@, description: self.description@ }
    }
}

/// A message as it is handed to the platform. An empty content stands for
/// none.
#[derive(Clone, Debug, PartialEq, Eq)]
pub struct Message {
    pub content: String,
    /// Whether only the member to whom the message replies may see it.
    pub ephemeral: bool,
    pub embed: Option<Embed>,
    pub buttons: Vec<Button>,
}

/// What a message says.
pub ghost struct MessageText {
    pub content: Seq<char>,
    pub ephemeral: bool,
    pub embed: Option<EmbedText>,
    pub buttons: Seq<Button>,
}

impl View for Message {
    type V = MessageText;

    open spec fn view(&self) -> MessageText {
        MessageText {
            content: self.content@,
            ephemeral: self.ephemeral,
            embed: match self.embed {
                Some(embed) => Some(embed@),
                None => None,
            },
            buttons: self.buttons@,
        }
    }
}

/// The control that archives a verification channel.
pub open spec fn spec_archive_button(style: ButtonStyle, disabled: bool) -> Button {
    Button {
        component: Component::OnboardingArchive,
        style,
        label: ARCHIVE_LABEL,
        emoji: None,
        disabled,
    }
}

/// The control that archives a verification channel.
#[verifier::when_used_as_spec(spec_archive_button)]
pub fn archive_button(style: ButtonStyle, disabled: bool) -> (button: Button)
    ensures
        button == spec_archive_button(style, disabled),
{
    Button {
        component: Component::OnboardingArchive,
        style,
        label: ARCHIVE_LABEL,
        emoji: None,
        disabled,
    }
}

/// The control that deletes a verification channel.
pub open spec fn spec_delete_button() -> Button {
    Button {
        component: Component::OnboardingDelete,
        style: ButtonStyle::Danger,
        label: DELETE_LABEL,
        emoji: None,
        disabled: false,
    }
}

/// The control that deletes a verification channel.
#[verifier::when_used_as_spec(spec_delete_button)]
pub fn delete_button() -> (button: Button)
    ensures
        button == spec_delete_button(),
{
    Button {
        component: Component::OnboardingDelete,
        style: ButtonStyle::Danger,
        label: DELETE_LABEL,
        emoji: None,
        disabled: false,
    }
}

/// The control by which a newcomer asks to join.
pub open spec fn spec_enter_button() -> Button {
    Button {
        component: Component::OnboardingStart,
        style: ButtonStyle::Primary,
        label: ENTER_LABEL,
        emoji: Some('\u{1F6AA}'),
        disabled: false,
    }
}

/// The control by which a newcomer asks to join.
#[verifier::when_used_as_spec(spec_enter_button)]
pub fn enter_button() -> (button: Button)
    ensures
        button == spec_enter_button(),
{
    Button {
        component: Component::OnboardingStart,
        style: ButtonStyle::Primary,
        label: ENTER_LABEL,
        emoji: Some('\u{1F6AA}'),
        disabled: false,
    }
}

/// The controls that a message keeps once its channel is archived:
/// archiving is disabled, deleting stays.
pub fn archived_controls() -> (buttons: Vec<Button>)
    ensures
        buttons@ == seq![archive_button(ButtonStyle::Primary, true), delete_button()],
{
    let mut buttons: Vec<Button> = Vec::new();
    buttons.push(archive_button(ButtonStyle::Primary, true));
    buttons.push(delete_button());
    buttons
}

/// The name of a channel once it is archived.
pub fn archived_name(current: &str) -> (name: String)
    ensures
        name@ == ARCHIVE_MARK@ + current@,
{
    let mut name = String::from_str(ARCHIVE_MARK);
    name.append(current);
    name
}

/// The name of the channel in which a member is verified: the member's
/// tag, with a hyphen for the hash sign.
pub fn member_channel_name(owner: &Member) -> (name: String)
    ensures
        name@ == dashed(tag_text(owner.name@, owner.discriminator)),
{
    let tag = member_tag(owner.name.as_str(), owner.discriminator);
    replace_hashes(tag.as_str())
}

/// How staff are told who a member is: the mention, and in brackets the
/// name, a hash sign and the discriminator.
pub open spec fn introduced(profile: Member) -> Seq<char> {
    user_mention_text(profile.id) + " ("@ + profile.name@ + "#"@ + decimal(
        profile.discriminator as nat,
    ) + ")"@
}

fn introduction(profile: &Member) -> (text: String)
    ensures
        text@ == introduced(*profile),
{
    let mut text = user_mention(profile.id);
    text.append(" (");
    text.append(profile.name.as_str());
    text.append("#");
    text.append(decimal_string(profile.discriminator as u64).as_str());
    text.append(")");
    text
}

impl Notice {
    /// The words of the notice, outside any embed.
    pub open spec fn content(self) -> Seq<char> {
        match self {
            Notice::NotConfigured => NOT_CONFIGURED@,
            Notice::InsufficientRights => INSUFFICIENT_RIGHTS@,
            Notice::ApprovalWrongChannel => APPROVAL_WRONG_CHANNEL@,
            Notice::DenialWrongChannel => DENIAL_WRONG_CHANNEL@,
            Notice::AlreadyConfigured => ALREADY_CONFIGURED@,
            Notice::IncorrectConfiguration => INCORRECT_CONFIGURATION@,
            Notice::AllSet => ALL_SET@,
            Notice::Pong => PONG@,
            Notice::NotifyRoleSet { role } => NOTIFY_ROLE_OPENING@ + role_mention_text(role)
                + NOTIFY_ROLE_CLOSING@,
            Notice::Approved { profile } => APPROVED@ + introduced(profile),
            Notice::Denied { profile } => DENIED@ + introduced(profile),
            Notice::Welcome { member, role_assignment_channel, introductions_channel } =>
                WELCOME_OPENING@ + user_mention_text(member) + WELCOME_ROLES@ + channel_mention_text(
                    role_assignment_channel,
                ) + WELCOME_INTRODUCTIONS@ + channel_mention_text(introductions_channel)
                    + WELCOME_CLOSING@,
            Notice::RequestReceived => REQUEST_RECEIVED@,
            Notice::AlreadyRequested { channel } => ALREADY_REQUESTED@ + channel_mention_text(
                channel,
            ) + "."@,
            Notice::MemberLeft { .. } => Seq::empty(),
            Notice::Wait { member, notify_role } => user_mention_text(member) + " "@
                + role_mention_text(notify_role),
            Notice::WelcomeInstructions => Seq::empty(),
        }
    }

    /// Whether the notice is for the eyes of the member it answers only.
    pub open spec fn ephemeral(self) -> bool {
        match self {
            Notice::NotConfigured => true,
            Notice::InsufficientRights => true,
            Notice::ApprovalWrongChannel => true,
            Notice::DenialWrongChannel => true,
            Notice::AlreadyConfigured => true,
            Notice::IncorrectConfiguration => true,
            _ => false,
        }
    }

    /// The embed of the notice, if it has one.
    pub open spec fn embed(self) -> Option<EmbedText> {
        match self {
            Notice::MemberLeft { profile } => Some(
                EmbedText {
                    colour: DARK_RED,
                    title: MEMBER_LEFT_TITLE@,
                    description: introduced(profile) + MEMBER_LEFT_CLOSING@,
                },
            ),
            Notice::Wait { .. } => Some(
                EmbedText { colour: BLITZ_BLUE, title: Seq::empty(), description: WAIT_DESCRIPTION@ },
            ),
            Notice::WelcomeInstructions => Some(
                EmbedText {
                    colour: BLITZ_BLUE,
                    title: WELCOME_TITLE@,
                    description: WELCOME_DESCRIPTION@,
                },
            ),
            _ => None,
        }
    }

    /// The controls of the notice.
    pub open spec fn buttons(self) -> Seq<Button> {
        match self {
            Notice::Approved { .. } => seq![
                archive_button(ButtonStyle::Secondary, false),
                delete_button(),
            ],
            Notice::MemberLeft { .. } => seq![
                archive_button(ButtonStyle::Primary, false),
                delete_button(),
            ],
            Notice::WelcomeInstructions => seq![enter_button()],
            _ => Seq::empty(),
        }
    }

    /// What the notice says.
    pub open spec fn text(self) -> MessageText {
        MessageText {
            content: self.content(),
            ephemeral: self.ephemeral(),
            embed: self.embed(),
            buttons: self.buttons(),
        }
    }

    fn words(&self) -> (content: String)
        ensures
            content@ == self.content(),
    {
        match self {
            Notice::NotConfigured => String::from_str(NOT_CONFIGURED),
            Notice::InsufficientRights => String::from_str(INSUFFICIENT_RIGHTS),
            Notice::ApprovalWrongChannel => String::from_str(APPROVAL_WRONG_CHANNEL),
            Notice::DenialWrongChannel => String::from_str(DENIAL_WRONG_CHANNEL),
            Notice::AlreadyConfigured => String::from_str(ALREADY_CONFIGURED),
            Notice::IncorrectConfiguration => String::from_str(INCORRECT_CONFIGURATION),
            Notice::AllSet => String::from_str(ALL_SET),
            Notice::Pong => String::from_str(PONG),
            Notice::NotifyRoleSet { role } => {
                let mut content = String::from_str(NOTIFY_ROLE_OPENING);
                content.append(role_mention(*role).as_str());
                content.append(NOTIFY_ROLE_CLOSING);
                content
            },
            Notice::Approved { profile } => {
                let mut content = String::from_str(APPROVED);
                content.append(introduction(profile).as_str());
                content
            },
            Notice::Denied { profile } => {
                let mut content = String::from_str(DENIED);
                content.append(introduction(profile).as_str());
                content
            },
            Notice::Welcome { member, role_assignment_channel, introductions_channel } => {
                let mut content = String::from_str(WELCOME_OPENING);
                content.append(user_mention(*member).as_str());
                content.append(WELCOME_ROLES);
                content.append(channel_mention(*role_assignment_channel).as_str());
                content.append(WELCOME_INTRODUCTIONS);
                content.append(channel_mention(*introductions_channel).as_str());
                content.append(WELCOME_CLOSING);
                content
            },
            Notice::RequestReceived => String::from_str(REQUEST_RECEIVED),
            Notice::AlreadyRequested { channel } => {
                let mut content = String::from_str(ALREADY_REQUESTED);
                content.append(channel_mention(*channel).as_str());
                content.append(".");
                content
            },
            Notice::MemberLeft { .. } => String::new(),
            Notice::Wait { member, notify_role } => {
                let mut content = user_mention(*member);
                content.append(" ");
                content.append(role_mention(*notify_role).as_str());
                content
            },
            Notice::WelcomeInstructions => String::new(),
        }
    }

    fn frame(&self) -> (embed: Option<Embed>)
        ensures
            match embed {
                Some(embed) => self.embed() == Some(embed@),
                None => self.embed() is None,
            },
    {
        match self {
            Notice::MemberLeft { profile } => {
                let mut description = introduction(profile);
                description.append(MEMBER_LEFT_CLOSING);
                Some(
                    Embed {
                        colour: dark_red(),
                        title: String::from_str(MEMBER_LEFT_TITLE),
                        description,
                    },
                )
            },
            Notice::Wait { .. } => Some(
                Embed {
                    colour: blitz_blue(),
                    title: String::new(),
                    description: String::from_str(WAIT_DESCRIPTION),
                },
            ),
            Notice::WelcomeInstructions => Some(
                Embed {
                    colour: blitz_blue(),
                    title: String::from_str(WELCOME_TITLE),
                    description: String::from_str(WELCOME_DESCRIPTION),
                },
            ),
            _ => None,
        }
    }

    fn controls(&self) -> (buttons: Vec<Button>)
        ensures
            buttons@ == self.buttons(),
    {
        let mut buttons: Vec<Button> = Vec::new();
        match self {
            Notice::Approved { .. } => {
                buttons.push(archive_button(ButtonStyle::Secondary, false));
                buttons.push(delete_button());
            },
            Notice::MemberLeft { .. } => {
                buttons.push(archive_button(ButtonStyle::Primary, false));
                buttons.push(delete_button());
            },
            Notice::WelcomeInstructions => {
                buttons.push(enter_button());
            },
            _ => {},
        }
        buttons
    }

    /// Puts the notice into words.
    pub fn message(&self) -> (message: Message)
        ensures
            message@ == self.text(),
    {
        let ephemeral = match self {
            Notice::NotConfigured => true,
            Notice::InsufficientRights => true,
            Notice::ApprovalWrongChannel => true,
            Notice::DenialWrongChannel => true,
            Notice::AlreadyConfigured => true,
            Notice::IncorrectConfiguration => true,
            _ => false,
        };
        Message {
            content: self.words(),
            ephemeral,
            embed: self.frame(),
            buttons: self.controls(),
        }
    }
}

} // verus!
