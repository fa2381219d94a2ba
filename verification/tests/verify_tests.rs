use verification_officer::interaction::verify::{self, Approval, Submission, VerifyError};
use verification_officer::interaction::{
    Context, Interaction, InteractionData, Message, ModalComponent, ModalRow, User,
};
use verification_officer::message::{
    Button, ButtonStyle, Embed, EmbedField, Reply, TextInput, TextInputStyle,
};
use verification_officer::Config;

fn config() -> Config {
    Config {
        verification_submissions_channel_id: 11,
        verification_approvals_channel_id: 12,
        verified_role_id: 13,
        verified_logging_channel_id: 14,
    }
}

fn row(custom_id: &str, value: Option<&str>) -> ModalRow {
    ModalRow {
        components: vec![ModalComponent {
            custom_id: custom_id.to_owned(),
            value: value.map(str::to_owned),
        }],
    }
}

fn form_rows() -> Vec<ModalRow> {
    vec![
        row("name", Some("  ahmet  yılmaz ")),
        row("email", Some("a@b.c")),
        row("birthday", Some("04.04.1984")),
        row("company", Some("Yok")),
        row("gamedev_experience_years", Some("5")),
    ]
}

fn submit_interaction(author: Option<u64>, data: Option<InteractionData>) -> verify::Context {
    verify::Context(Context {
        config: config(),
        interaction: Interaction {
            guild_id: Some(99),
            author: author.map(|id| User { id, name: "user".to_owned() }),
            data,
            message: None,
        },
    })
}

fn modal(rows: Vec<ModalRow>) -> Option<InteractionData> {
    Some(InteractionData::ModalSubmit { custom_id: verify::MODAL_ID.to_owned(), rows })
}

fn field(name: &str, value: &str) -> EmbedField {
    EmbedField { name: name.to_owned(), value: value.to_owned() }
}

fn expected_fields() -> Vec<EmbedField> {
    vec![
        field("Kullanıcı", "<@42>"),
        field("İsim Soyisim", "Ahmet Yılmaz"),
        field("Emailiniz", "a@b.c"),
        field("Doğum Tarihi (gün.ay.yıl)", "04.04.1984"),
        field("Bulunduğunuz Kurum veya Ekip", "Yok"),
        field("Yaklaşık Kaç Senedir Oyun Sektöründesiniz", "5"),
    ]
}

#[test]
fn text_inputs_of_the_form() {
    let inputs = verify::text_inputs();
    assert_eq!(inputs.len(), 5);
    assert_eq!(
        inputs[0],
        TextInput {
            custom_id: "name".to_owned(),
            label: "İsim Soyisim".to_owned(),
            style: TextInputStyle::Short,
            min_length: None,
            max_length: Some(32),
            placeholder: None,
            required: None,
            value: None,
        }
    );
    assert_eq!(inputs[2].custom_id, "birthday");
    assert_eq!(inputs[2].label, "Doğum Tarihi (gün.ay.yıl)");
    assert_eq!(inputs[2].min_length, Some(10));
    assert_eq!(inputs[2].max_length, Some(10));
    assert_eq!(inputs[2].placeholder.as_deref(), Some("04.04.1984"));
    assert_eq!(inputs[3].placeholder.as_deref(), Some("Yok"));
    assert_eq!(inputs[4].custom_id, "gamedev_experience_years");
    assert_eq!(inputs[4].label, "Yaklaşık Kaç Senedir Oyun Sektöründesiniz");
    assert_eq!(inputs[1].label, "Emailiniz");
    assert_eq!(inputs[1].max_length, None);
}

#[test]
fn modal_open_gives_the_form() {
    let m = submit_interaction(Some(42), None).modal_open();
    assert_eq!(m.custom_id, "verify_modal");
    assert_eq!(m.title, "Verification");
    assert_eq!(m.inputs, verify::text_inputs());
}

#[test]
fn modal_submit_builds_the_submission() {
    let s = submit_interaction(Some(42), modal(form_rows())).modal_submit().unwrap();
    assert_eq!(
        s,
        Submission {
            channel_id: 11,
            message: Reply {
                content: None,
                embed: Some(Embed {
                    title: Some("Doğrulama Formu Dolduruldu".to_owned()),
                    description: None,
                    fields: expected_fields(),
                }),
                button: Some(Button {
                    custom_id: "verify_approve".to_owned(),
                    label: "Doğrula".to_owned(),
                    style: ButtonStyle::Success,
                }),
                ephemeral: false,
                update_last: false,
            },
            response: Reply {
                content: Some(
                    "Doğrulamanız iletildi, yakında doğrulanacaksınız. Teşekkürler!".to_owned()
                ),
                embed: None,
                button: None,
                ephemeral: true,
                update_last: false,
            },
        }
    );
}

#[test]
fn modal_submit_sanitizes_only_the_name_component() {
    let mut rows = form_rows();
    rows[0] = row("other", Some("  ahmet  yılmaz "));
    rows[1] = row("name", Some("a@b.c"));
    let s = submit_interaction(Some(42), modal(rows)).modal_submit().unwrap();
    let fields = s.message.embed.unwrap().fields;
    assert_eq!(fields[1], field("İsim Soyisim", "  ahmet  yılmaz "));
    assert_eq!(fields[2], field("Emailiniz", "A@b.c"));
}

#[test]
fn modal_submit_with_fewer_or_more_rows() {
    let rows = vec![row("name", Some("veli"))];
    let s = submit_interaction(Some(42), modal(rows)).modal_submit().unwrap();
    assert_eq!(
        s.message.embed.unwrap().fields,
        vec![field("Kullanıcı", "<@42>"), field("İsim Soyisim", "Veli")]
    );
    let mut rows = form_rows();
    rows.push(row("extra", Some("ignored")));
    rows.push(ModalRow { components: vec![] });
    let s = submit_interaction(Some(42), modal(rows)).modal_submit().unwrap();
    assert_eq!(s.message.embed.unwrap().fields, expected_fields());
    let s = submit_interaction(Some(42), modal(vec![])).modal_submit().unwrap();
    assert_eq!(s.message.embed.unwrap().fields, vec![field("Kullanıcı", "<@42>")]);
}

#[test]
fn modal_submit_errors() {
    assert_eq!(
        submit_interaction(None, modal(form_rows())).modal_submit(),
        Err(VerifyError::MissingAuthor)
    );
    assert_eq!(submit_interaction(Some(42), None).modal_submit(), Err(VerifyError::MissingData));
    assert_eq!(
        submit_interaction(
            Some(42),
            Some(InteractionData::MessageComponent { custom_id: "verify_modal".to_owned() })
        )
        .modal_submit(),
        Err(VerifyError::NotModal)
    );
    let mut rows = form_rows();
    rows[2] = ModalRow { components: vec![] };
    rows[3] = row("company", None);
    assert_eq!(
        submit_interaction(Some(42), modal(rows)).modal_submit(),
        Err(VerifyError::EmptyRow)
    );
    let mut rows = form_rows();
    rows[3] = row("company", None);
    rows[4] = ModalRow { components: vec![] };
    assert_eq!(
        submit_interaction(Some(42), modal(rows)).modal_submit(),
        Err(VerifyError::MissingValue)
    );
}

fn approve_interaction(
    guild_id: Option<u64>,
    author: Option<User>,
    message: Option<Message>,
) -> verify::Context {
    verify::Context(Context {
        config: config(),
        interaction: Interaction {
            guild_id,
            author,
            data: Some(InteractionData::MessageComponent { custom_id: "verify_approve".to_owned() }),
            message,
        },
    })
}

fn approver() -> Option<User> {
    Some(User { id: 7, name: "mod".to_owned() })
}

fn message_with(fields: Vec<EmbedField>) -> Option<Message> {
    Some(Message { embeds: vec![Embed { title: None, description: None, fields }] })
}

fn description_reply(text: &str, update_last: bool) -> Reply {
    Reply {
        content: None,
        embed: Some(Embed { title: None, description: Some(text.to_owned()), fields: vec![] }),
        button: None,
        ephemeral: false,
        update_last,
    }
}

#[test]
fn approve_reads_the_submission() {
    let a = approve_interaction(Some(99), approver(), message_with(expected_fields()))
        .approve()
        .unwrap();
    assert_eq!(
        a,
        Approval {
            guild_id: 99,
            user_id: 42,
            nick: "Ahmet Yılmaz".to_owned(),
            reason: "mod tarafından doğrulandı".to_owned(),
            role_id: 13,
            approvals_channel_id: 12,
            notice: description_reply("<@42>, doğrulandınız!", false),
            logging_channel_id: 14,
            record: description_reply("<@42>, <@7> tarafından doğrulandı.", false),
            response: description_reply("<@42>, <@7> tarafından doğrulandı.", true),
        }
    );
}

#[test]
fn approve_after_submit_scenario() {
    let s = submit_interaction(Some(4242), modal(form_rows())).modal_submit().unwrap();
    let embed = s.message.embed.unwrap();
    let a = approve_interaction(Some(1), approver(), Some(Message { embeds: vec![embed] }))
        .approve()
        .unwrap();
    assert_eq!(a.user_id, 4242);
    assert_eq!(a.nick, "Ahmet Yılmaz");
    assert_eq!(a.guild_id, 1);
}

#[test]
fn approve_takes_the_first_name_field_after_the_user_field() {
    let fields = vec![
        field("İsim Soyisim", "before"),
        field("Kullanıcı", "<@5>"),
        field("Kullanıcı", "<@6>"),
        field("İsim Soyisim", "after"),
        field("İsim Soyisim", "later"),
    ];
    let a = approve_interaction(Some(99), approver(), message_with(fields)).approve().unwrap();
    assert_eq!(a.user_id, 5);
    assert_eq!(a.nick, "after");
}

#[test]
fn approve_errors() {
    let full = || message_with(expected_fields());
    assert_eq!(
        approve_interaction(None, approver(), full()).approve(),
        Err(VerifyError::MissingGuild)
    );
    assert_eq!(approve_interaction(Some(99), None, full()).approve(), Err(VerifyError::MissingAuthor));
    assert_eq!(
        approve_interaction(Some(99), approver(), None).approve(),
        Err(VerifyError::MissingMessage)
    );
    assert_eq!(
        approve_interaction(Some(99), approver(), Some(Message { embeds: vec![] })).approve(),
        Err(VerifyError::MissingEmbed)
    );
    assert_eq!(
        approve_interaction(Some(99), approver(), message_with(vec![field("İsim Soyisim", "x")]))
            .approve(),
        Err(VerifyError::MissingUserField)
    );
    assert_eq!(
        approve_interaction(Some(99), approver(), message_with(vec![field("Kullanıcı", "42")]))
            .approve(),
        Err(VerifyError::MalformedMention)
    );
    assert_eq!(
        approve_interaction(
            Some(99),
            approver(),
            message_with(vec![field("Kullanıcı", "<@x>"), field("İsim Soyisim", "n")])
        )
        .approve(),
        Err(VerifyError::InvalidUserId)
    );
    assert_eq!(
        approve_interaction(
            Some(99),
            approver(),
            message_with(vec![field("İsim Soyisim", "n"), field("Kullanıcı", "<@3>")])
        )
        .approve(),
        Err(VerifyError::MissingNameField)
    );
}

#[test]
fn approve_refuses_names_discord_does_not_accept() {
    let with_nick = |nick: &str| {
        message_with(vec![field("Kullanıcı", "<@3>"), field("İsim Soyisim", nick)])
    };
    assert_eq!(
        approve_interaction(Some(99), approver(), with_nick("")).approve(),
        Err(VerifyError::InvalidNickname)
    );
    let longest = "ş".repeat(32);
    assert_eq!(
        approve_interaction(Some(99), approver(), with_nick(&longest)).approve().unwrap().nick,
        longest
    );
    assert_eq!(
        approve_interaction(Some(99), approver(), with_nick(&"ş".repeat(33))).approve(),
        Err(VerifyError::InvalidNickname)
    );
}

#[test]
fn approve_refuses_a_reason_discord_does_not_accept() {
    let message = || message_with(vec![field("Kullanıcı", "<@3>"), field("İsim Soyisim", "Ali")]);
    let suffix = " tarafından doğrulandı".chars().count();
    let named = |n: usize| Some(User { id: 7, name: "ğ".repeat(n) });
    let a = approve_interaction(Some(99), named(512 - suffix), message()).approve().unwrap();
    assert_eq!(a.reason.chars().count(), 512);
    assert_eq!(
        approve_interaction(Some(99), named(513 - suffix), message()).approve(),
        Err(VerifyError::InvalidReason)
    );
}

#[test]
fn approve_after_submit_of_a_blank_name() {
    let mut rows = form_rows();
    rows[0] = row("name", Some(" \t "));
    let s = submit_interaction(Some(4242), modal(rows)).modal_submit().unwrap();
    let embed = s.message.embed.unwrap();
    assert_eq!(
        approve_interaction(Some(1), approver(), Some(Message { embeds: vec![embed] })).approve(),
        Err(VerifyError::InvalidNickname)
    );
}
