use verification_officer::command::{self, Command};
use verification_officer::interaction::verification;
use verification_officer::interaction::verify::{self, VerifyError};
use verification_officer::interaction::{
    Context as InteractionContext, Interaction, InteractionData, ModalComponent, ModalRow, Route,
    User,
};
use verification_officer::message::{Button, ButtonStyle, Embed, EmbedField, Reply, TextInputStyle};
use verification_officer::{err_reply, Config, Context, CustomError, Error, Event, UserError};

fn config() -> Config {
    Config {
        verification_submissions_channel_id: 1,
        verification_approvals_channel_id: 2,
        verified_role_id: 3,
        verified_logging_channel_id: 4,
    }
}

fn with_data(data: Option<InteractionData>) -> InteractionContext {
    InteractionContext {
        config: config(),
        interaction: Interaction { guild_id: None, author: None, data, message: None },
    }
}

fn component(custom_id: &str) -> Option<InteractionData> {
    Some(InteractionData::MessageComponent { custom_id: custom_id.to_owned() })
}

#[test]
fn routes_by_name() {
    assert_eq!(with_data(component("verify_modal_open")).handle(), Ok(Route::ModalOpen));
    assert_eq!(
        with_data(Some(InteractionData::ModalSubmit {
            custom_id: "verify_modal".to_owned(),
            rows: vec![]
        }))
        .handle(),
        Ok(Route::ModalSubmit)
    );
    assert_eq!(with_data(component("verify_approve")).handle(), Ok(Route::Approve));
    assert_eq!(
        with_data(Some(InteractionData::ApplicationCommand { name: "verify_approve".to_owned() }))
            .handle(),
        Ok(Route::Approve)
    );
}

#[test]
fn unknown_and_nameless_interactions() {
    let unknown = with_data(component("verification_modal_open"));
    assert_eq!(
        unknown.clone().handle(),
        Err(Error::UnknownInteraction(unknown.interaction))
    );
    assert_eq!(with_data(None).handle(), Err(Error::MissingInteractionName));
    assert_eq!(
        with_data(Some(InteractionData::Other)).handle(),
        Err(Error::MissingInteractionName)
    );
}

#[test]
fn interaction_names() {
    assert_eq!(with_data(component("abc")).interaction.name(), Some("abc".to_owned()));
    assert_eq!(with_data(Some(InteractionData::Other)).interaction.name(), None);
}

const GENERIC: &str = "Something went wrong, I reported the error to the developers, hopefully \
                       it'll be fixed soon. Sorry about the inconvenience.";

#[test]
fn err_reply_texts() {
    let custom = UserError::Custom(CustomError::InvalidName("Ali Veli".to_owned()));
    assert_eq!(
        err_reply(&custom),
        Reply {
            content: Some(
                "Your name *Ali Veli* is over 32 characters, consider using abbreviations or \
                 omitting your middle name."
                    .to_owned()
            ),
            embed: None,
            button: None,
            ephemeral: true,
            update_last: false,
        }
    );
    for e in [UserError::Internal, UserError::Ignore, UserError::MissingPermissions(None), UserError::MissingPermissions(Some(8))] {
        let r = err_reply(&e);
        assert_eq!(r.content.as_deref(), Some(GENERIC));
        assert!(r.ephemeral);
    }
}

#[test]
fn custom_error_message_uses_the_nickname_limit() {
    assert_eq!(
        CustomError::InvalidName(String::new()).message(),
        "Your name ** is over 32 characters, consider using abbreviations or omitting your \
         middle name."
    );
}

#[test]
fn failures_propagate_only_when_internal() {
    let internal = InteractionContext::failure(&UserError::Internal);
    assert!(internal.propagate);
    assert_eq!(internal.reply.content.as_deref(), Some(GENERIC));
    assert!(!InteractionContext::failure(&UserError::Ignore).propagate);
    assert!(!InteractionContext::failure(&UserError::MissingPermissions(None)).propagate);
    let custom = InteractionContext::failure(&UserError::Custom(CustomError::InvalidName("x".to_owned())));
    assert!(!custom.propagate);
}

fn args(list: &[&str]) -> command::Context {
    command::Context(list.iter().map(|s| s.to_string()).collect())
}

#[test]
fn command_line() {
    assert_eq!(args(&[]).handle(), Ok(Command::Run));
    assert_eq!(args(&["bot"]).handle(), Ok(Command::Run));
    assert_eq!(
        args(&["bot", "create_verification_message"]).handle(),
        Err(Error::CreateVerificationMessageMissingChannelId)
    );
    assert_eq!(
        args(&["bot", "create_verification_message", "123", "extra"]).handle(),
        Ok(Command::CreateVerificationMessage(123))
    );
    assert_eq!(
        args(&["bot", "create_verification_message", "0"]).handle(),
        Err(Error::InvalidId("0".to_owned()))
    );
    assert_eq!(
        args(&["bot", "create_verification_message", "abc"]).handle(),
        Err(Error::InvalidId("abc".to_owned()))
    );
    assert_eq!(args(&["bot", "start"]).handle(), Err(Error::UnknownCommand("start".to_owned())));
}

#[test]
fn verification_message_has_the_open_button() {
    let r = args(&["bot"]).create_verification_message();
    assert_eq!(
        r,
        Reply {
            content: None,
            embed: Some(Embed {
                title: Some("Doğrulama Formu".to_owned()),
                description: Some("Doğrulanmak için aşağıdaki butona basın".to_owned()),
                fields: vec![],
            }),
            button: Some(Button {
                custom_id: verify::MODAL_OPEN_ID.to_owned(),
                label: "Doğrulama Formunu Aç".to_owned(),
                style: ButtonStyle::Primary,
            }),
            ephemeral: false,
            update_last: false,
        }
    );
}

#[test]
fn config_parsing() {
    assert_eq!(Config::parse("1", "2", "3", "4"), Ok(config()));
    assert_eq!(Config::parse("x", "0", "3", "4"), Err(Error::InvalidId("x".to_owned())));
    assert_eq!(Config::parse("1", "0", "3", "4"), Err(Error::InvalidId("0".to_owned())));
    assert_eq!(Config::parse("1", "2", "", "4"), Err(Error::InvalidId(String::new())));
    assert_eq!(Config::parse("1", "2", "3", "-4"), Err(Error::InvalidId("-4".to_owned())));
}

#[test]
fn events() {
    let bot = Context { config: config() };
    let interaction = Interaction { guild_id: Some(9), author: None, data: None, message: None };
    assert_eq!(
        bot.handle_event(Event::InteractionCreate(interaction.clone())),
        Ok(InteractionContext { config: config(), interaction })
    );
    assert_eq!(
        bot.handle_event(Event::Other("Ready(\n    Ready {\n        version: 10,\n    },\n)".to_owned())),
        Err(Error::UnknownEvent("Ready(\n    Ready {\n        version: 10,\n    },\n)".to_owned()))
    );
}

fn short_row(value: &str) -> ModalRow {
    ModalRow {
        components: vec![ModalComponent { custom_id: "c".to_owned(), value: Some(value.to_owned()) }],
    }
}

fn short_form_context(rows: Vec<ModalRow>) -> InteractionContext {
    InteractionContext {
        config: config(),
        interaction: Interaction {
            guild_id: None,
            author: Some(User { id: 77, name: "u".to_owned() }),
            data: Some(InteractionData::ModalSubmit {
                custom_id: verification::MODAL_SUBMIT_ID.to_owned(),
                rows,
            }),
            message: None,
        },
    }
}

#[test]
fn short_form_modal() {
    let m = short_form_context(vec![]).open_verification_modal();
    assert_eq!(m.custom_id, "verification_modal_submit");
    assert_eq!(m.title, "Verification");
    let ids: Vec<&str> = m.inputs.iter().map(|i| i.custom_id.as_str()).collect();
    assert_eq!(ids, vec!["name", "surname", "details"]);
    assert_eq!(m.inputs[2].style, TextInputStyle::Paragraph);
    assert_eq!(m.inputs[2].required, Some(false));
    assert_eq!(m.inputs[0].required, None);
    assert_eq!(m.inputs[1].label, "Surname");
}

#[test]
fn short_form_submission() {
    let s = short_form_context(vec![short_row("ali"), short_row("veli"), short_row(""), short_row("x")])
        .handle_verification_modal_submit()
        .unwrap();
    assert_eq!(s.channel_id, 1);
    let embed = s.message.embed.unwrap();
    assert_eq!(embed.title.as_deref(), Some("Verification Submission"));
    let f = |n: &str, v: &str| EmbedField { name: n.to_owned(), value: v.to_owned() };
    assert_eq!(
        embed.fields,
        vec![f("User", "<@77>"), f("Name", "ali"), f("Surname", "veli"), f("Details", "")]
    );
    assert_eq!(s.message.button, None);
    assert_eq!(
        s.response.content.as_deref(),
        Some("Reported your submission to the admins. You'll be verified soon. Thank you!")
    );
    assert!(s.response.ephemeral);
}

#[test]
fn short_form_errors() {
    assert_eq!(
        short_form_context(vec![short_row("a"), short_row("b")]).handle_verification_modal_submit(),
        Err(VerifyError::MissingRow)
    );
    assert_eq!(
        short_form_context(vec![short_row("a"), ModalRow { components: vec![] }])
            .handle_verification_modal_submit(),
        Err(VerifyError::EmptyRow)
    );
    let none = ModalRow { components: vec![ModalComponent { custom_id: "c".to_owned(), value: None }] };
    assert_eq!(
        short_form_context(vec![none, short_row("b"), short_row("c")]).handle_verification_modal_submit(),
        Err(VerifyError::MissingValue)
    );
    let mut ctx = short_form_context(vec![]);
    ctx.interaction.author = None;
    assert_eq!(ctx.handle_verification_modal_submit(), Err(VerifyError::MissingAuthor));
    let mut ctx = short_form_context(vec![]);
    ctx.interaction.data = Some(InteractionData::Other);
    assert_eq!(ctx.handle_verification_modal_submit(), Err(VerifyError::NotModal));
    let mut ctx = short_form_context(vec![]);
    ctx.interaction.data = None;
    assert_eq!(ctx.handle_verification_modal_submit(), Err(VerifyError::MissingData));
}
