use vstd::prelude::*;

use crate::decimal::{parse_id, parse_id_spec};
use crate::interaction::verify::MODAL_OPEN_ID;
use crate::message::{owned, Button, ButtonStyle, ButtonView, Embed, EmbedView, Reply, ReplyView};
use crate::text::chars_of;
use crate::Error;

verus! {

/// The one command the program knows.
pub const CREATE_VERIFICATION_MESSAGE: &'static str = "create_verification_message";

/// What the program is to do after reading its arguments.
#[derive(Clone, Copy, Debug, PartialEq, Eq)]
pub enum Command {
    /// No command: run the bot.
    Run,
    /// Post the verification message in the channel of the given id, then
    /// stop.
    CreateVerificationMessage(u64),
}

/// The program's arguments, its own name first.
#[derive(Clone, Debug, PartialEq, Eq)]
pub struct Context(pub Vec<String>);

/// The verification message: the title, the prompt and the button that
/// opens the form.
pub open spec fn verification_message() -> ReplyView {
    ReplyView {
        content: None,
        embed: Some(
            EmbedView {
                title: Some("Doğrulama Formu"@),
                description: Some("Doğrulanmak için aşağıdaki butona basın"@),
                fields: seq![],
            },
        ),
        button: Some(
            ButtonView {
                custom_id: MODAL_OPEN_ID@,
                label: "Doğrulama Formunu Aç"@,
                style: ButtonStyle::Primary,
            },
        ),
        ephemeral: false,
        update_last: false,
    }
}

impl Context {
    /// Reads the command from the arguments: none means running the bot;
    /// `create_verification_message` needs the id of a channel after it;
    /// any other command is unknown.
    pub fn handle(&self) -> (r: Result<Command, Error>)
        ensures
            self.0.len() < 2 ==> r == Ok::<Command, Error>(Command::Run),
            self.0.len() >= 2 && self.0@[1]@ == CREATE_VERIFICATION_MESSAGE@ && self.0.len() < 3
                ==> r == Err::<Command, Error>(Error::CreateVerificationMessageMissingChannelId),
            self.0.len() >= 3 && self.0@[1]@ == CREATE_VERIFICATION_MESSAGE@ ==> match parse_id_spec(
                self.0@[2]@,
            ) {
                Some(id) => r == Ok::<Command, Error>(Command::CreateVerificationMessage(id)),
                None => (r matches Err(Error::InvalidId(t)) && t@ == self.0@[2]@),
            },
            self.0.len() >= 2 && self.0@[1]@ != CREATE_VERIFICATION_MESSAGE@ ==> (r matches Err(
                Error::UnknownCommand(c),
            ) && c@ == self.0@[1]@),
    {
        let args = &self.0;
        if args.len() < 2 {
            return Ok(Command::Run);
        }
        let command = &args[1];
        let known = owned(CREATE_VERIFICATION_MESSAGE);
        if *command == known {
            if args.len() < 3 {
                return Err(Error::CreateVerificationMessageMissingChannelId);
            }
            let id_text = &args[2];
            let chars = chars_of(id_text.as_str());
            match parse_id(chars.as_slice()) {
                Some(id) => Ok(Command::CreateVerificationMessage(id)),
                None => Err(Error::InvalidId(id_text.clone())),
            }
        } else {
            Err(Error::UnknownCommand(command.clone()))
        }
    }

    /// The verification message to post, as `verification_message` says.
    pub fn create_verification_message(&self) -> (r: Reply)
        ensures
            r@ == verification_message(),
    {
        let fields = Vec::new();
        let embed = Embed {
            title: Some(owned("Doğrulama Formu")),
            description: Some(owned("Doğrulanmak için aşağıdaki butona basın")),
            fields,
        };
        assert(embed@.fields =~= seq![]);
        let button = Button {
            custom_id: owned(MODAL_OPEN_ID),
            label: owned("Doğrulama Formunu Aç"),
            style: ButtonStyle::Primary,
        };
        Reply { content: None, embed: Some(embed), button: Some(button), ephemeral: false, update_last: false }
    }
}

} // verus!
