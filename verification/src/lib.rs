//! The verification bot of the ÜNOG Discord server, as a library: what it
//! answers to each command, interaction and form, with the rules it keeps.

use vstd::prelude::*;

pub mod command;
pub mod decimal;
pub mod interaction;
pub mod limits;
pub mod mention;
pub mod message;
pub mod name;
pub mod text;

use crate::decimal::{decimal, decimal_chars, parse_id, parse_id_spec};
use crate::interaction::Interaction;
use crate::limits::{nickname_limit, nickname_limit_max};
use crate::message::{owned, Reply, ReplyView};
use crate::text::{chars_of, string_from_chars};

verus! {

/// The errors the bot itself raises.
#[derive(Clone, Debug, PartialEq, Eq)]
pub enum Error {
    /// The program was started with a command it does not know.
    UnknownCommand(String),
    /// `create_verification_message` was given no channel id.
    CreateVerificationMessageMissingChannelId,
    /// A text that should be a Discord id (a non-zero `u64`) is not one.
    InvalidId(String),
    /// The gateway sent an event the bot does not handle, given by its full
    /// description.
    UnknownEvent(String),
    /// An interaction that no handler serves, whole.
    UnknownInteraction(Interaction),
    /// An interaction without a command name or custom id.
    MissingInteractionName,
}

/// Errors that are shown to the user as they are.
#[derive(Clone, Debug, PartialEq, Eq)]
pub enum CustomError {
    /// The given name is longer than a nickname may be.
    InvalidName(String),
}

/// The message shown for a name that is too long.
pub open spec fn invalid_name_message(name: Seq<char>) -> Seq<char> {
    "Your name *"@ + name + "* is over "@ + decimal(nickname_limit())
        + " characters, consider using abbreviations or omitting your middle name."@
}

impl CustomError {
    /// The text shown to the user for this error.
    pub fn message(&self) -> (r: String)
        ensures
            match self {
                CustomError::InvalidName(name) => r@ == invalid_name_message(name@),
            },
    {
        match self {
            CustomError::InvalidName(name) => {
                let limit = nickname_limit_max();
                let digits = decimal_chars(limit as u64);
                let digits = string_from_chars(digits.as_slice());
                let mut r = owned("Your name *");
                r.append(name.as_str());
                r.append("* is over ");
                r.append(digits.as_str());
                r.append(
                    " characters, consider using abbreviations or omitting your middle name.",
                );
                r
            },
        }
    }
}

/// How a failed interaction is seen by the user.
#[derive(Clone, Debug, PartialEq, Eq)]
pub enum UserError {
    /// The bot lacks permissions (the missing ones, where known, as bits).
    MissingPermissions(Option<u64>),
    /// An error to show to the user as it is.
    Custom(CustomError),
    /// A fault on the bot's side.
    Internal,
    /// An error that is not worth reporting.
    Ignore,
}

/// The text shown for every failure that is not a custom error.
pub open spec fn generic_failure_text() -> Seq<char> {
    "Something went wrong, I reported the error to the developers, hopefully it'll be fixed soon. Sorry about the inconvenience."@
}

/// The reply to a failed interaction: the custom error's message, or the
/// generic text; only the interacting user sees it.
pub open spec fn err_reply_view(err: UserError) -> ReplyView {
    ReplyView {
        content: Some(
            match err {
                UserError::Custom(CustomError::InvalidName(name)) => invalid_name_message(name@),
                _ => generic_failure_text(),
            },
        ),
        embed: None,
        button: None,
        ephemeral: true,
        update_last: false,
    }
}

/// The reply to a failed interaction, as `err_reply_view` says.
pub fn err_reply(err: &UserError) -> (r: Reply)
    ensures
        r@ == err_reply_view(*err),
{
    let content = match err {
        UserError::Custom(custom) => custom.message(),
        _ => owned(
            "Something went wrong, I reported the error to the developers, hopefully it'll be fixed soon. Sorry about the inconvenience.",
        ),
    };
    Reply { content: Some(content), embed: None, button: None, ephemeral: true, update_last: false }
}

/// Where the bot posts and what role it gives, by Discord id.
#[derive(Clone, Copy, Debug, PartialEq, Eq)]
pub struct Config {
    pub verification_submissions_channel_id: u64,
    pub verification_approvals_channel_id: u64,
    pub verified_role_id: u64,
    pub verified_logging_channel_id: u64,
}

/// Parses one id of the configuration.
fn config_id(s: &str) -> (r: Result<u64, Error>)
    ensures
        match r {
            Ok(v) => parse_id_spec(s@) == Some(v),
            Err(Error::InvalidId(t)) => parse_id_spec(s@) is None && t@ == s@,
            Err(_) => false,
        },
{
    let chars = chars_of(s);
    match parse_id(chars.as_slice()) {
        Some(v) => Ok(v),
        None => Err(Error::InvalidId(owned(s))),
    }
}

impl Config {
    /// Reads the configuration from the texts of its ids, in the order of
    /// the fields; the first text that is not a valid id is the error.
    pub fn parse(submissions: &str, approvals: &str, role: &str, logging: &str) -> (r: Result<
        Config,
        Error,
    >)
        ensures
            match r {
                Ok(c) => {
                    &&& parse_id_spec(submissions@) == Some(c.verification_submissions_channel_id)
                    &&& parse_id_spec(approvals@) == Some(c.verification_approvals_channel_id)
                    &&& parse_id_spec(role@) == Some(c.verified_role_id)
                    &&& parse_id_spec(logging@) == Some(c.verified_logging_channel_id)
                },
                Err(Error::InvalidId(t)) => {
                    ||| parse_id_spec(submissions@) is None && t@ == submissions@
                    ||| parse_id_spec(submissions@) is Some && parse_id_spec(approvals@) is None
                        && t@ == approvals@
                    ||| parse_id_spec(submissions@) is Some && parse_id_spec(approvals@) is Some
                        && parse_id_spec(role@) is None && t@ == role@
                    ||| parse_id_spec(submissions@) is Some && parse_id_spec(approvals@) is Some
                        && parse_id_spec(role@) is Some && parse_id_spec(logging@) is None && t@
                        == logging@
                },
                Err(_) => false,
            },
    {
        let verification_submissions_channel_id = config_id(submissions)?;
        let verification_approvals_channel_id = config_id(approvals)?;
        let verified_role_id = config_id(role)?;
        let verified_logging_channel_id = config_id(logging)?;
        Ok(
            Config {
                verification_submissions_channel_id,
                verification_approvals_channel_id,
                verified_role_id,
                verified_logging_channel_id,
            },
        )
    }
}

/// An event from the gateway: an interaction, or another event, given by
/// its full description (what the bot logs of it).
#[derive(Clone, Debug, PartialEq, Eq)]
pub enum Event {
    InteractionCreate(Interaction),
    Other(String),
}

/// The bot as the event loop sees it.
#[derive(Clone, Copy, Debug, PartialEq, Eq)]
pub struct Context {
    pub config: Config,
}

impl Context {
    /// Takes an event from the gateway: an interaction becomes the context
    /// in which it is handled; any other event is `UnknownEvent`.
    pub fn handle_event(&self, event: Event) -> (r: Result<interaction::Context, Error>)
        ensures
            match (event, r) {
                (Event::InteractionCreate(i), Ok(c)) => c.config == self.config && c.interaction
                    == i,
                (Event::Other(description), Err(Error::UnknownEvent(d))) => d@ == description@,
                _ => false,
            },
    {
        match event {
            Event::InteractionCreate(interaction) => Ok(
                interaction::Context { config: self.config, interaction },
            ),
            Event::Other(description) => Err(Error::UnknownEvent(description)),
        }
    }
}

} // verus!
