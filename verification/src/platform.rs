//! What the engine takes from the platform's own library: how the platform
//! writes a mention and a member's tag, its colours, its permissions, and
//! how it reports that something was not found.
//!
//! Nothing in this file is proved. Each function calls the library and
//! states what the library's source shows of the result.

use crate::text::{decimal, padded4};
use serenity::http::StatusCode;
use serenity::model::id::{ChannelId, RoleId, UserId};
use serenity::model::mention::Mentionable;
use serenity::model::permissions::Permissions;
use serenity::model::user::User;
use serenity::utils::Colour;
use vstd::prelude::*;

verus! {

/// How a channel is mentioned in a message.
pub open spec fn channel_mention_text(id: u64) -> Seq<char> {
    "<#"@ + decimal(id as nat) + ">"@
}

/// How a role is mentioned in a message.
pub open spec fn role_mention_text(id: u64) -> Seq<char> {
    "<@&"@ + decimal(id as nat) + ">"@
}

/// How a user is mentioned in a message.
pub open spec fn user_mention_text(id: u64) -> Seq<char> {
    "<@"@ + decimal(id as nat) + ">"@
}

/// A member's tag: the name, a hash sign, and the discriminator in at
/// least four digits.
pub open spec fn tag_text(name: Seq<char>, discriminator: u16) -> Seq<char> {
    name + seq!['#'] + padded4(discriminator as nat)
}

/// A text in which every hash sign has given way to a hyphen.
pub open spec fn dashed(text: Seq<char>) -> Seq<char> {
    Seq::new(
        text.len(),
        |i: int|
            if text[i] == '#' {
                '-'
            } else {
                text[i]
            },
    )
}

/// The colour of the notice that a member has left.
pub const DARK_RED: u32 = 0x992D22;

/// The colour of the notices to newcomers.
pub const BLITZ_BLUE: u32 = 0x6FC6E2;

/// What a member under verification may do in their channel: view it, send
/// messages, and read its history.
pub const MEMBER_ACCESS: u64 = 0x10C00;

/// The status with which the platform reports that something is not found.
pub const NOT_FOUND: u16 = 404;

/// Calls `mention` on a `ChannelId` of serenity and renders the result.
/// Claims that the text is `<#`, the id in decimal, and `>`.
#[verifier::external_body]
pub(crate) fn channel_mention(id: u64) -> (text: String)
    ensures
        text@ == channel_mention_text(id),
{
    ChannelId(id).mention().to_string()
}

/// Calls `mention` on a `RoleId` of serenity and renders the result.
/// Claims that the text is `<@&`, the id in decimal, and `>`.
#[verifier::external_body]
pub(crate) fn role_mention(id: u64) -> (text: String)
    ensures
        text@ == role_mention_text(id),
{
    RoleId(id).mention().to_string()
}

/// Calls `mention` on a `UserId` of serenity and renders the result.
/// Claims that the text is `<@`, the id in decimal, and `>`.
#[verifier::external_body]
pub(crate) fn user_mention(id: u64) -> (text: String)
    ensures
        text@ == user_mention_text(id),
{
    UserId(id).mention().to_string()
}

/// Calls `tag` on a `User` of serenity that has the given name and
/// discriminator. Claims that the tag is the name, a hash sign, and the
/// discriminator in decimal, padded with zeros to four digits.
#[verifier::external_body]
pub(crate) fn member_tag(name: &str, discriminator: u16) -> (tag: String)
    ensures
        tag@ == tag_text(name@, discriminator),
{
    let mut user = User::default();
    user.name = name.to_string();
    user.discriminator = discriminator;
    user.tag()
}

/// Calls `str::replace` to put a hyphen in the place of every hash sign.
#[verifier::external_body]
pub(crate) fn replace_hashes(text: &str) -> (replaced: String)
    ensures
        replaced@ == dashed(text@),
{
    text.replace('#', "-")
}

/// Reads `Colour::DARK_RED` of serenity. Claims its value.
#[verifier::external_body]
pub(crate) fn dark_red() -> (colour: u32)
    ensures
        colour == DARK_RED,
{
    Colour::DARK_RED.0
}

/// Reads `Colour::BLITZ_BLUE` of serenity. Claims its value.
#[verifier::external_body]
pub(crate) fn blitz_blue() -> (colour: u32)
    ensures
        colour == BLITZ_BLUE,
{
    Colour::BLITZ_BLUE.0
}

/// Joins the permissions `VIEW_CHANNEL`, `SEND_MESSAGES` and
/// `READ_MESSAGE_HISTORY` of serenity. Claims the bits of the result: the
/// eleventh, the twelfth and the seventeenth.
#[verifier::external_body]
pub(crate) fn member_access() -> (bits: u64)
    ensures
        bits == MEMBER_ACCESS,
{
    (Permissions::VIEW_CHANNEL | Permissions::READ_MESSAGE_HISTORY | Permissions::SEND_MESSAGES).bits()
}

/// Reads `StatusCode::NOT_FOUND`, which serenity takes from the `http`
/// crate. Claims that it is 404.
#[verifier::external_body]
pub(crate) fn not_found() -> (status: u16)
    ensures
        status == NOT_FOUND,
{
    StatusCode::NOT_FOUND.as_u16()
}

/// An error of serenity. Nothing is known of what it holds.
#[verifier::external_type_specification]
#[verifier::external_body]
pub struct ExError(serenity::Error);

/// The HTTP status that an error of serenity holds: that of the
/// unsuccessful request which the error reports, if it reports one.
pub uninterp spec fn status_of(error: serenity::Error) -> Option<u16>;

/// Calls `status_code` on the error of the HTTP layer that an error of
/// serenity holds, if it holds one. Claims only that the result is the
/// status that the error holds, which is the same whenever it is asked for.
#[verifier::external_body]
pub(crate) fn http_status(error: &serenity::Error) -> (status: Option<u16>)
    ensures
        status == status_of(*error),
{
    match error {
        serenity::Error::Http(inner) => inner.status_code().map(|status| status.as_u16()),
        _ => None,
    }
}

} // verus!
