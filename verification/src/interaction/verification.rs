use vstd::prelude::*;

use crate::interaction::verify::{submission_result_view, Submission, SubmissionView, VerifyError};
use crate::mention::{format_mention, lemma_mention_roundtrip, mention, mention_target};
use crate::interaction::{
    rows_view, InteractionContext, InteractionData, InteractionDataView, InteractionView,
    ModalComponentView, ModalRow,
};
use crate::message::{
    ephemeral_text, owned, plain_input, Embed, EmbedField, EmbedFieldView, EmbedView, Modal,
    ModalView, Reply, ReplyView, TextInput, TextInputStyle, TextInputView,
};
use crate::Config;

verus! {

/// The custom id of the button that opens the short form.
pub const MODAL_OPEN_ID: &'static str = "verification_modal_open";

/// The custom id of the short form.
pub const MODAL_SUBMIT_ID: &'static str = "verification_modal_submit";

/// The short form: name, surname and optional details.
pub open spec fn short_form() -> ModalView {
    ModalView {
        custom_id: MODAL_SUBMIT_ID@,
        title: "Verification"@,
        inputs: seq![
            TextInputView {
                custom_id: "name"@,
                label: "Name"@,
                style: TextInputStyle::Short,
                min_length: None,
                max_length: None,
                placeholder: None,
                required: None,
                value: None,
            },
            TextInputView {
                custom_id: "surname"@,
                label: "Surname"@,
                style: TextInputStyle::Short,
                min_length: None,
                max_length: None,
                placeholder: None,
                required: None,
                value: None,
            },
            TextInputView {
                custom_id: "details"@,
                label: "Details"@,
                style: TextInputStyle::Paragraph,
                min_length: None,
                max_length: None,
                placeholder: None,
                required: Some(false),
                value: None,
            },
        ],
    }
}

/// The text entered in the `k`-th row of a submitted form.
pub open spec fn row_value(rows: Seq<Seq<ModalComponentView>>, k: int) -> Result<
    Seq<char>,
    VerifyError,
> {
    if k >= rows.len() {
        Err(VerifyError::MissingRow)
    } else if rows[k].len() == 0 {
        Err(VerifyError::EmptyRow)
    } else {
        match rows[k][0].value {
            None => Err(VerifyError::MissingValue),
            Some(v) => Ok(v),
        }
    }
}

/// The field of the given name holding the given text.
pub open spec fn field(name: Seq<char>, value: Seq<char>) -> EmbedFieldView {
    EmbedFieldView { name, value }
}

/// What submitting the short form leads to: the first three rows become
/// the name, surname and details fields, in that order.
pub open spec fn short_form_submit_spec(config: Config, i: InteractionView) -> Result<
    SubmissionView,
    VerifyError,
> {
    match i.author {
        None => Err(VerifyError::MissingAuthor),
        Some(author) => match i.data {
            None => Err(VerifyError::MissingData),
            Some(InteractionDataView::ModalSubmit { rows, .. }) => match row_value(rows, 0) {
                Err(e) => Err(e),
                Ok(name) => match row_value(rows, 1) {
                    Err(e) => Err(e),
                    Ok(surname) => match row_value(rows, 2) {
                        Err(e) => Err(e),
                        Ok(details) => Ok(
                            SubmissionView {
                                channel_id: config.verification_submissions_channel_id,
                                message: ReplyView {
                                    content: None,
                                    embed: Some(
                                        EmbedView {
                                            title: Some("Verification Submission"@),
                                            description: None,
                                            fields: seq![
                                                field("User"@, mention(author.id)),
                                                field("Name"@, name),
                                                field("Surname"@, surname),
                                                field("Details"@, details),
                                            ],
                                        },
                                    ),
                                    button: None,
                                    ephemeral: false,
                                    update_last: false,
                                },
                                response: ReplyView {
                                    content: Some(
                                        "Reported your submission to the admins. You'll be verified soon. Thank you!"@,
                                    ),
                                    embed: None,
                                    button: None,
                                    ephemeral: true,
                                    update_last: false,
                                },
                            },
                        ),
                    },
                },
            },
            Some(_) => Err(VerifyError::NotModal),
        },
    }
}

/// A submitted short form mentions the very user who submitted it in its
/// first field, by the user's full id, then holds the first three rows'
/// texts unchanged under "Name", "Surname" and "Details"; it goes to the
/// submissions channel, and only the submitting user sees the response.
pub proof fn lemma_short_submission_contents(config: Config, i: InteractionView)
    requires
        short_form_submit_spec(config, i) is Ok,
    ensures
        ({
            let s = short_form_submit_spec(config, i)->Ok_0;
            let author = i.author->Some_0;
            let rows = i.data->Some_0->ModalSubmit_rows;
            let fields = s.message.embed->Some_0.fields;
            &&& s.channel_id == config.verification_submissions_channel_id
            &&& s.message.embed is Some
            &&& s.response.ephemeral
            &&& fields.len() == 4
            &&& rows.len() >= 3
            &&& fields[0].name == "User"@
            &&& fields[0].value == mention(author.id)
            &&& author.id != 0 ==> mention_target(fields[0].value) == Ok::<u64, VerifyError>(
                author.id,
            )
            &&& fields[1].name == "Name"@
            &&& fields[2].name == "Surname"@
            &&& fields[3].name == "Details"@
            &&& forall|k: int|
                0 <= k < 3 ==> rows[k].len() > 0 && rows[k][0].value is Some && #[trigger] fields[k
                    + 1].value == rows[k][0].value->Some_0
        }),
{
    let author = i.author->Some_0;
    if author.id != 0 {
        lemma_mention_roundtrip(author.id);
    }
    let rows = i.data->Some_0->ModalSubmit_rows;
    let fields = short_form_submit_spec(config, i)->Ok_0.message.embed->Some_0.fields;
    assert(row_value(rows, 0) is Ok);
    assert(row_value(rows, 1) is Ok);
    assert(row_value(rows, 2) is Ok);
    assert(fields[1].value == rows[0][0].value->Some_0);
    assert(fields[2].value == rows[1][0].value->Some_0);
    assert(fields[3].value == rows[2][0].value->Some_0);
}

/// The text entered in the `k`-th row, as `row_value` says.
fn entered_text(rows: &Vec<ModalRow>, k: usize) -> (r: Result<String, VerifyError>)
    ensures
        match (r, row_value(rows_view(rows@), k as int)) {
            (Ok(a), Ok(b)) => a@ == b,
            (Err(a), Err(b)) => a == b,
            _ => false,
        },
{
    if k >= rows.len() {
        return Err(VerifyError::MissingRow);
    }
    let row = &rows[k];
    assert(rows_view(rows@)[k as int] == row@);
    if row.components.len() == 0 {
        return Err(VerifyError::EmptyRow);
    }
    assert(row@[0] == row.components@[0]@);
    match &row.components[0].value {
        Some(v) => Ok(v.clone()),
        None => Err(VerifyError::MissingValue),
    }
}

fn field_of(name: &str, value: String) -> (r: EmbedField)
    ensures
        r@ == field(name@, value@),
{
    EmbedField { name: owned(name), value }
}

impl InteractionContext {
    /// The short form to open, as `short_form` says.
    pub fn open_verification_modal(&self) -> (r: Modal)
        ensures
            r@ == short_form(),
    {
        let mut details = plain_input("details", "Details", TextInputStyle::Paragraph);
        details.required = Some(false);
        let mut inputs: Vec<TextInput> = Vec::new();
        inputs.push(plain_input("name", "Name", TextInputStyle::Short));
        inputs.push(plain_input("surname", "Surname", TextInputStyle::Short));
        inputs.push(details);
        let r = Modal { custom_id: owned(MODAL_SUBMIT_ID), title: owned("Verification"), inputs };
        assert(r@.inputs =~= short_form().inputs);
        r
    }

    /// Turns the submitted short form into the submission message and the
    /// response to the submitting user, as `short_form_submit_spec` says.
    pub fn handle_verification_modal_submit(self) -> (r: Result<Submission, VerifyError>)
        ensures
            submission_result_view(r) == short_form_submit_spec(self.config, self.interaction@),
    {
        let author_id = match &self.interaction.author {
            Some(a) => a.id,
            None => return Err(VerifyError::MissingAuthor),
        };
        let rows = match &self.interaction.data {
            None => return Err(VerifyError::MissingData),
            Some(InteractionData::ModalSubmit { rows, .. }) => rows,
            Some(_) => return Err(VerifyError::NotModal),
        };
        assert(self.interaction@.data->Some_0->ModalSubmit_rows == rows_view(rows@));
        let name = entered_text(rows, 0)?;
        let surname = entered_text(rows, 1)?;
        let details = entered_text(rows, 2)?;
        let mut fields: Vec<EmbedField> = Vec::new();
        fields.push(field_of("User", format_mention(author_id)));
        fields.push(field_of("Name", name));
        fields.push(field_of("Surname", surname));
        fields.push(field_of("Details", details));
        let embed = Embed { title: Some(owned("Verification Submission")), description: None, fields };
        let message = Reply {
            content: None,
            embed: Some(embed),
            button: None,
            ephemeral: false,
            update_last: false,
        };
        let response = ephemeral_text(
            "Reported your submission to the admins. You'll be verified soon. Thank you!",
        );
        let r = Submission {
            channel_id: self.config.verification_submissions_channel_id,
            message,
            response,
        };
        assert(r@.message.embed->Some_0.fields =~= short_form_submit_spec(self.config, self.interaction@)->Ok_0.message.embed->Some_0.fields);
        Ok(r)
    }
}

} // verus!
