use vstd::prelude::*;

use crate::interaction::{
    route_of, rows_view, InteractionData, InteractionDataView, InteractionView,
    ModalComponentView, ModalRow, Route, UserView,
};
use crate::limits::{
    audit_reason_accepted, audit_reason_ok, nickname_accepted, nickname_limit, nickname_limit_max,
    nickname_ok,
};
use crate::mention::{format_mention, lemma_mention_roundtrip, mention, mention_target, parse_mention};
use crate::message::{
    description_embed, ephemeral_text, fields_view, inputs_view, owned, Button, ButtonStyle,
    ButtonView, Embed, EmbedField, EmbedFieldView, EmbedView, Modal, ModalView, Reply, ReplyView,
    TextInput, TextInputStyle, TextInputView,
};
use crate::name::{name_sanitized, sanitized_name};
use crate::Config;

verus! {

/// The custom id of the verification form.
pub const MODAL_ID: &'static str = "verify_modal";

/// The custom id of the button that opens the verification form.
pub const MODAL_OPEN_ID: &'static str = "verify_modal_open";

/// The custom id of the button that approves a submission.
pub const APPROVE_ID: &'static str = "verify_approve";

/// The custom id of the name input of the form.
pub const NAME_CUSTOM_ID: &'static str = "name";

/// The label of the name input, and the name of the embed field that holds
/// the submitted name.
pub const NAME_LABEL: &'static str = "İsim Soyisim";

/// The name of the embed field that mentions the submitting user.
pub const USER_EMBED_FIELD_NAME: &'static str = "Kullanıcı";

/// The text inputs of the verification form, in order.
pub open spec fn text_inputs_spec() -> Seq<TextInputView> {
    seq![
        TextInputView {
            custom_id: NAME_CUSTOM_ID@,
            label: NAME_LABEL@,
            style: TextInputStyle::Short,
            min_length: None,
            max_length: Some(nickname_limit() as u16),
            placeholder: None,
            required: None,
            value: None,
        },
        TextInputView {
            custom_id: "email"@,
            label: "Emailiniz"@,
            style: TextInputStyle::Short,
            min_length: None,
            max_length: None,
            placeholder: None,
            required: None,
            value: None,
        },
        TextInputView {
            custom_id: "birthday"@,
            label: "Doğum Tarihi (gün.ay.yıl)"@,
            style: TextInputStyle::Short,
            min_length: Some(10),
            max_length: Some(10),
            placeholder: Some("04.04.1984"@),
            required: None,
            value: None,
        },
        TextInputView {
            custom_id: "company"@,
            label: "Bulunduğunuz Kurum veya Ekip"@,
            style: TextInputStyle::Short,
            min_length: None,
            max_length: None,
            placeholder: Some("Yok"@),
            required: None,
            value: None,
        },
        TextInputView {
            custom_id: "gamedev_experience_years"@,
            label: "Yaklaşık Kaç Senedir Oyun Sektöründesiniz"@,
            style: TextInputStyle::Short,
            min_length: None,
            max_length: None,
            placeholder: None,
            required: None,
            value: None,
        },
    ]
}

/// The text inputs of the verification form: name (at most a nickname's
/// length), email, birthday (exactly ten characters), company and years in
/// game development.
pub fn text_inputs() -> (r: Vec<TextInput>)
    ensures
        inputs_view(r@) == text_inputs_spec(),
{
    let limit = nickname_limit_max();
    let mut name = plain(NAME_CUSTOM_ID, NAME_LABEL);
    name.max_length = Some(limit as u16);
    let email = plain("email", "Emailiniz");
    let mut birthday = plain("birthday", "Doğum Tarihi (gün.ay.yıl)");
    birthday.min_length = Some(10);
    birthday.max_length = Some(10);
    birthday.placeholder = Some(owned("04.04.1984"));
    let mut company = plain("company", "Bulunduğunuz Kurum veya Ekip");
    company.placeholder = Some(owned("Yok"));
    let experience = plain("gamedev_experience_years", "Yaklaşık Kaç Senedir Oyun Sektöründesiniz");
    let mut r: Vec<TextInput> = Vec::new();
    r.push(name);
    r.push(email);
    r.push(birthday);
    r.push(company);
    r.push(experience);
    assert(inputs_view(r@) =~= text_inputs_spec());
    r
}

/// The form's inputs tell themselves apart: their custom ids are pairwise
/// distinct, only the first is the name input, and their labels (which
/// become the submission's field names) are pairwise distinct too.
pub proof fn lemma_form_inputs_distinct()
    ensures
        text_inputs_spec().len() == 5,
        forall|j: int, k: int|
            0 <= j < k < 5 ==> text_inputs_spec()[j].custom_id != text_inputs_spec()[k].custom_id
                && text_inputs_spec()[j].label != text_inputs_spec()[k].label,
        forall|k: int|
            0 <= k < 5 ==> (text_inputs_spec()[k].custom_id == NAME_CUSTOM_ID@ <==> k == 0),
        text_inputs_spec()[0].custom_id == "name"@,
        text_inputs_spec()[1].custom_id == "email"@,
        text_inputs_spec()[2].custom_id == "birthday"@,
        text_inputs_spec()[3].custom_id == "company"@,
        text_inputs_spec()[4].custom_id == "gamedev_experience_years"@,
{
    reveal_strlit("name");
    reveal_strlit("email");
    reveal_strlit("birthday");
    reveal_strlit("company");
    reveal_strlit("gamedev_experience_years");
    reveal_strlit("İsim Soyisim");
    reveal_strlit("Emailiniz");
    reveal_strlit("Doğum Tarihi (gün.ay.yıl)");
    reveal_strlit("Bulunduğunuz Kurum veya Ekip");
    reveal_strlit("Yaklaşık Kaç Senedir Oyun Sektöründesiniz");
    let f = text_inputs_spec();
    assert(f[0].custom_id.len() == 4);
    assert(f[1].custom_id.len() == 5);
    assert(f[2].custom_id.len() == 8);
    assert(f[3].custom_id.len() == 7);
    assert(f[4].custom_id.len() == 24);
    assert(f[0].label.len() == 12);
    assert(f[1].label.len() == 9);
    assert(f[2].label.len() == 25);
    assert(f[3].label.len() == 28);
    assert(f[4].label.len() == 41);
}

fn plain(custom_id: &str, label: &str) -> (r: TextInput)
    ensures
        r@ == (TextInputView {
            custom_id: custom_id@,
            label: label@,
            style: TextInputStyle::Short,
            min_length: None,
            max_length: None,
            placeholder: None,
            required: None,
            value: None,
        }),
{
    crate::message::plain_input(custom_id, label, TextInputStyle::Short)
}

/// Why a verification step cannot go on.
#[derive(Clone, Copy, Debug, PartialEq, Eq)]
pub enum VerifyError {
    /// The interaction has no user.
    MissingAuthor,
    /// The interaction carries no data.
    MissingData,
    /// The interaction is not a submitted modal.
    NotModal,
    /// The submitted form has fewer rows than it asks for.
    MissingRow,
    /// A row of the submitted form has no component.
    EmptyRow,
    /// A component of the submitted form has no value.
    MissingValue,
    /// The interaction did not happen in a guild.
    MissingGuild,
    /// The interaction was not started from a message.
    MissingMessage,
    /// The message has no embed.
    MissingEmbed,
    /// The embed has no field naming the submitting user.
    MissingUserField,
    /// The user field is not of the form `<@` ... `>`.
    MalformedMention,
    /// Between `<@` and `>` there is no valid user id.
    InvalidUserId,
    /// No name field follows the user field.
    MissingNameField,
    /// The name to give is not a nickname Discord accepts: it is empty or
    /// longer than a nickname may be.
    InvalidNickname,
    /// The reason to record is longer than Discord accepts.
    InvalidReason,
}

/// The embed field that one row of the submitted form becomes: named by
/// the form input's label, holding the entered text, sanitized when the
/// row's component is the name input.
pub open spec fn submission_field(row: Seq<ModalComponentView>, input: TextInputView) -> Result<
    EmbedFieldView,
    VerifyError,
> {
    if row.len() == 0 {
        Err(VerifyError::EmptyRow)
    } else {
        match row[0].value {
            None => Err(VerifyError::MissingValue),
            Some(v) => Ok(
                EmbedFieldView {
                    name: input.label,
                    value: if row[0].custom_id == NAME_CUSTOM_ID@ {
                        sanitized_name(v)
                    } else {
                        v
                    },
                },
            ),
        }
    }
}

/// The embed fields that the submitted rows become, row by row with the
/// form inputs in order, as far as both go; the first row that fails
/// decides the error.
pub open spec fn submission_fields(
    rows: Seq<Seq<ModalComponentView>>,
    inputs: Seq<TextInputView>,
) -> Result<Seq<EmbedFieldView>, VerifyError>
    decreases rows.len(),
{
    if rows.len() == 0 || inputs.len() == 0 {
        Ok(seq![])
    } else {
        let n = if rows.len() < inputs.len() {
            rows.len()
        } else {
            inputs.len()
        };
        match submission_fields(rows.take(n - 1), inputs.take(n - 1)) {
            Err(e) => Err(e),
            Ok(fs) => match submission_field(rows[n - 1], inputs[n - 1]) {
                Err(e) => Err(e),
                Ok(f) => Ok(fs.push(f)),
            },
        }
    }
}

/// The title of a submission.
pub open spec fn submission_title() -> Seq<char> {
    "Doğrulama Formu Dolduruldu"@
}

/// The reply that tells the submitting user the form was passed on.
pub open spec fn submission_received() -> Seq<char> {
    "Doğrulamanız iletildi, yakında doğrulanacaksınız. Teşekkürler!"@
}

/// A submitted form, ready to be sent: the message to post in the
/// submissions channel, and the response to the submitting user.
#[derive(Clone, Debug, PartialEq, Eq)]
pub struct Submission {
    pub channel_id: u64,
    pub message: Reply,
    pub response: Reply,
}

pub struct SubmissionView {
    pub channel_id: u64,
    pub message: ReplyView,
    pub response: ReplyView,
}

impl View for Submission {
    type V = SubmissionView;

    open spec fn view(&self) -> SubmissionView {
        SubmissionView { channel_id: self.channel_id, message: self.message@, response: self.response@ }
    }
}

/// The submission message: titled, with the user field first and the
/// form's fields after it, and the approve button under it.
pub open spec fn submission_message(author: u64, fields: Seq<EmbedFieldView>) -> ReplyView {
    ReplyView {
        content: None,
        embed: Some(
            EmbedView {
                title: Some(submission_title()),
                description: None,
                fields: seq![EmbedFieldView { name: USER_EMBED_FIELD_NAME@, value: mention(author) }]
                    + fields,
            },
        ),
        button: Some(
            ButtonView { custom_id: APPROVE_ID@, label: "Doğrula"@, style: ButtonStyle::Success },
        ),
        ephemeral: false,
        update_last: false,
    }
}

/// What submitting the form leads to.
pub open spec fn modal_submit_spec(config: Config, i: InteractionView) -> Result<
    SubmissionView,
    VerifyError,
> {
    match i.author {
        None => Err(VerifyError::MissingAuthor),
        Some(author) => match i.data {
            None => Err(VerifyError::MissingData),
            Some(InteractionDataView::ModalSubmit { rows, .. }) => match submission_fields(
                rows,
                text_inputs_spec(),
            ) {
                Err(e) => Err(e),
                Ok(fields) => Ok(
                    SubmissionView {
                        channel_id: config.verification_submissions_channel_id,
                        message: submission_message(author.id, fields),
                        response: ReplyView {
                            content: Some(submission_received()),
                            embed: None,
                            button: None,
                            ephemeral: true,
                            update_last: false,
                        },
                    },
                ),
            },
            Some(_) => Err(VerifyError::NotModal),
        },
    }
}

/// A result seen by the view of its value.
pub open spec fn submission_result_view(r: Result<Submission, VerifyError>) -> Result<
    SubmissionView,
    VerifyError,
> {
    match r {
        Ok(s) => Ok(s@),
        Err(e) => Err(e),
    }
}

/// The embed fields of the submitted rows, as `submission_fields` says.
pub fn submitted_fields(rows: &Vec<ModalRow>, inputs: &Vec<TextInput>) -> (r: Result<
    Vec<EmbedField>,
    VerifyError,
>)
    ensures
        match (r, submission_fields(rows_view(rows@), inputs_view(inputs@))) {
            (Ok(fs), Ok(gs)) => fields_view(fs@) == gs,
            (Err(e), Err(f)) => e == f,
            _ => false,
        },
{
    let ghost rv = rows_view(rows@);
    let ghost iv = inputs_view(inputs@);
    let n = if rows.len() < inputs.len() {
        rows.len()
    } else {
        inputs.len()
    };
    let mut out: Vec<EmbedField> = Vec::new();
    let mut k: usize = 0;
    assert(submission_fields(rv.take(0), iv.take(0)) == Ok::<Seq<EmbedFieldView>, VerifyError>(
        seq![],
    ));
    assert(fields_view(out@) =~= seq![]);
    while k < n
        invariant
            k <= n,
            n <= rows.len(),
            n <= inputs.len(),
            n == rows.len() || n == inputs.len(),
            rv == rows_view(rows@),
            iv == inputs_view(inputs@),
            submission_fields(rv.take(k as int), iv.take(k as int)) == Ok::<
                Seq<EmbedFieldView>,
                VerifyError,
            >(fields_view(out@)),
        decreases n - k,
    {
        let row = &rows[k];
        let input = &inputs[k];
        proof {
            lemma_submission_fields_step(rv, iv, k as int);
            assert(rv[k as int] == row@);
            assert(iv[k as int] == input@);
        }
        if row.components.len() == 0 {
            proof {
                lemma_submission_error_persists(rv, iv, k + 1, VerifyError::EmptyRow);
            }
            return Err(VerifyError::EmptyRow);
        }
        let component = &row.components[0];
        assert(row@[0] == component@);
        let value = match &component.value {
            Some(v) => v,
            None => {
                proof {
                    lemma_submission_error_persists(rv, iv, k + 1, VerifyError::MissingValue);
                }
                return Err(VerifyError::MissingValue);
            },
        };
        let name_id = owned(NAME_CUSTOM_ID);
        let shown = if component.custom_id == name_id {
            name_sanitized(value.as_str())
        } else {
            value.clone()
        };
        let ghost before = fields_view(out@);
        out.push(EmbedField { name: input.label.clone(), value: shown });
        assert(fields_view(out@) =~= before.push(
            EmbedFieldView { name: input@.label, value: shown@ },
        ));
        k = k + 1;
    }
    proof {
        if n == rows.len() {
            assert(rv.take(n as int) =~= rv);
        }
        if n == inputs.len() {
            assert(iv.take(n as int) =~= iv);
        }
        lemma_submission_fields_prefix(rv, iv);
    }
    Ok(out)
}

/// One more row and input: the fields so far, then that row's field.
proof fn lemma_submission_fields_step(
    rows: Seq<Seq<ModalComponentView>>,
    inputs: Seq<TextInputView>,
    k: int,
)
    requires
        0 <= k < rows.len(),
        k < inputs.len(),
    ensures
        submission_fields(rows.take(k + 1), inputs.take(k + 1)) == match submission_fields(
            rows.take(k),
            inputs.take(k),
        ) {
            Err(e) => Err(e),
            Ok(fs) => match submission_field(rows[k], inputs[k]) {
                Err(e) => Err(e),
                Ok(f) => Ok(fs.push(f)),
            },
        },
{
    let rk = rows.take(k + 1);
    let ik = inputs.take(k + 1);
    assert(rk.take(k) =~= rows.take(k));
    assert(ik.take(k) =~= inputs.take(k));
    assert(rk[k] == rows[k]);
    assert(ik[k] == inputs[k]);
}

/// Once a prefix of the rows fails, the whole form fails the same way.
proof fn lemma_submission_error_persists(
    rows: Seq<Seq<ModalComponentView>>,
    inputs: Seq<TextInputView>,
    k: int,
    e: VerifyError,
)
    requires
        0 <= k <= rows.len(),
        k <= inputs.len(),
        submission_fields(rows.take(k), inputs.take(k)) == Err::<Seq<EmbedFieldView>, VerifyError>(e),
    ensures
        submission_fields(rows, inputs) == Err::<Seq<EmbedFieldView>, VerifyError>(e),
    decreases rows.len() - k,
{
    if k < rows.len() && k < inputs.len() {
        lemma_submission_fields_step(rows, inputs, k);
        lemma_submission_error_persists(rows, inputs, k + 1, e);
    } else {
        lemma_submission_fields_prefix(rows, inputs);
        if k == rows.len() {
            assert(rows.take(k) =~= rows);
        }
        if k == inputs.len() {
            assert(inputs.take(k) =~= inputs);
        }
    }
}

/// Only as many rows as there are inputs, and as many inputs as there are
/// rows, take part in the fields.
proof fn lemma_submission_fields_prefix(
    rows: Seq<Seq<ModalComponentView>>,
    inputs: Seq<TextInputView>,
)
    ensures
        ({
            let n = if rows.len() < inputs.len() {
                rows.len()
            } else {
                inputs.len()
            };
            submission_fields(rows, inputs) == submission_fields(rows.take(n as int), inputs.take(n as int))
        }),
{
    let n = if rows.len() < inputs.len() {
        rows.len()
    } else {
        inputs.len()
    };
    let r2 = rows.take(n as int);
    let i2 = inputs.take(n as int);
    if n > 0 {
        assert(r2.take(n - 1) =~= rows.take(n - 1));
        assert(i2.take(n - 1) =~= inputs.take(n - 1));
        assert(r2[n - 1] == rows[n - 1]);
        assert(i2[n - 1] == inputs[n - 1]);
    }
}


/// The index of the first field at or after `from` with the given name.
pub open spec fn find_field(fields: Seq<EmbedFieldView>, name: Seq<char>, from: nat) -> Option<nat>
    decreases fields.len() - from,
{
    if from >= fields.len() {
        None
    } else if fields[from as int].name == name {
        Some(from)
    } else {
        find_field(fields, name, from + 1)
    }
}

/// Finds the first field at or after `from` with the given name, as
/// `find_field` says.
pub fn find_field_from(fields: &Vec<EmbedField>, name: &str, from: usize) -> (r: Option<usize>)
    ensures
        match (r, find_field(fields_view(fields@), name@, from as nat)) {
            (Some(k), Some(j)) => k == j,
            (None, None) => true,
            _ => false,
        },
        r matches Some(k) ==> from <= k < fields.len() && fields@[k as int]@.name == name@,
{
    let ghost fv = fields_view(fields@);
    let wanted = owned(name);
    let mut k: usize = from;
    while k < fields.len()
        invariant
            from <= k,
            fv == fields_view(fields@),
            wanted@ == name@,
            find_field(fv, name@, from as nat) == find_field(fv, name@, k as nat),
        decreases fields.len() - k,
    {
        assert(fv[k as int] == fields@[k as int]@);
        if fields[k].name == wanted {
            return Some(k);
        }
        k = k + 1;
    }
    None
}

/// The description of the approval notice.
pub open spec fn approved_text(user_mention: Seq<char>) -> Seq<char> {
    user_mention + ", doğrulandınız!"@
}

/// The description of the record of an approval.
pub open spec fn approval_record_text(user_mention: Seq<char>, approver: u64) -> Seq<char> {
    user_mention + ", "@ + mention(approver) + " tarafından doğrulandı."@
}

/// The audit log reason of an approval.
pub open spec fn approval_reason(approver_name: Seq<char>) -> Seq<char> {
    approver_name + " tarafından doğrulandı"@
}

/// A reply of one embed that holds only the given description.
pub open spec fn description_reply(description: Seq<char>, update_last: bool) -> ReplyView {
    ReplyView {
        content: None,
        embed: Some(EmbedView { title: None, description: Some(description), fields: seq![] }),
        button: None,
        ephemeral: false,
        update_last,
    }
}

/// An approved submission, ready to be carried out: give the user the
/// nickname and the verified role in the guild (both with the reason),
/// post the notice in the approvals channel, post the record in the
/// logging channel, and turn the response to the approver into the record.
#[derive(Clone, Debug, PartialEq, Eq)]
pub struct Approval {
    pub guild_id: u64,
    pub user_id: u64,
    pub nick: String,
    pub reason: String,
    pub role_id: u64,
    pub approvals_channel_id: u64,
    pub notice: Reply,
    pub logging_channel_id: u64,
    pub record: Reply,
    pub response: Reply,
}

pub struct ApprovalView {
    pub guild_id: u64,
    pub user_id: u64,
    pub nick: Seq<char>,
    pub reason: Seq<char>,
    pub role_id: u64,
    pub approvals_channel_id: u64,
    pub notice: ReplyView,
    pub logging_channel_id: u64,
    pub record: ReplyView,
    pub response: ReplyView,
}

impl View for Approval {
    type V = ApprovalView;

    open spec fn view(&self) -> ApprovalView {
        ApprovalView {
            guild_id: self.guild_id,
            user_id: self.user_id,
            nick: self.nick@,
            reason: self.reason@,
            role_id: self.role_id,
            approvals_channel_id: self.approvals_channel_id,
            notice: self.notice@,
            logging_channel_id: self.logging_channel_id,
            record: self.record@,
            response: self.response@,
        }
    }
}

/// What approving a submission leads to: the submission is the first embed
/// of the message the button is under; the user field names the user to
/// verify, and the first name field after it holds the nickname to give.
pub open spec fn approve_spec(config: Config, i: InteractionView) -> Result<ApprovalView, VerifyError> {
    match i.guild_id {
        None => Err(VerifyError::MissingGuild),
        Some(guild_id) => match i.author {
            None => Err(VerifyError::MissingAuthor),
            Some(approver) => match i.message {
                None => Err(VerifyError::MissingMessage),
                Some(embeds) => if embeds.len() == 0 {
                    Err(VerifyError::MissingEmbed)
                } else {
                    let fields = embeds[0].fields;
                    match find_field(fields, USER_EMBED_FIELD_NAME@, 0) {
                        None => Err(VerifyError::MissingUserField),
                        Some(u) => {
                            let user_mention = fields[u as int].value;
                            match mention_target(user_mention) {
                                Err(e) => Err(e),
                                Ok(user_id) => match find_field(fields, NAME_LABEL@, u + 1) {
                                    None => Err(VerifyError::MissingNameField),
                                    Some(n) => if !nickname_ok(fields[n as int].value) {
                                        Err(VerifyError::InvalidNickname)
                                    } else if !audit_reason_ok(approval_reason(approver.name)) {
                                        Err(VerifyError::InvalidReason)
                                    } else {
                                        Ok(
                                        ApprovalView {
                                            guild_id,
                                            user_id,
                                            nick: fields[n as int].value,
                                            reason: approval_reason(approver.name),
                                            role_id: config.verified_role_id,
                                            approvals_channel_id:
                                                config.verification_approvals_channel_id,
                                            notice: description_reply(
                                                approved_text(user_mention),
                                                false,
                                            ),
                                            logging_channel_id: config.verified_logging_channel_id,
                                            record: description_reply(
                                                approval_record_text(user_mention, approver.id),
                                                false,
                                            ),
                                            response: description_reply(
                                                approval_record_text(user_mention, approver.id),
                                                true,
                                            ),
                                        },
                                    )
                                    },
                                },
                            }
                        },
                    }
                },
            },
        },
    }
}

/// A result seen by the view of its value.
pub open spec fn approval_result_view(r: Result<Approval, VerifyError>) -> Result<
    ApprovalView,
    VerifyError,
> {
    match r {
        Ok(a) => Ok(a@),
        Err(e) => Err(e),
    }
}

/// The fields of a submitted form, when it goes through: one per row and
/// input, each what `submission_field` makes of them.
proof fn lemma_submission_fields_ok(rows: Seq<Seq<ModalComponentView>>, inputs: Seq<TextInputView>)
    requires
        submission_fields(rows, inputs) is Ok,
    ensures
        ({
            let fs = submission_fields(rows, inputs)->Ok_0;
            &&& fs.len() == if rows.len() < inputs.len() {
                rows.len()
            } else {
                inputs.len()
            }
            &&& forall|k: int|
                0 <= k < fs.len() ==> submission_field(rows[k], inputs[k]) == Ok::<
                    EmbedFieldView,
                    VerifyError,
                >(#[trigger] fs[k])
        }),
    decreases rows.len(),
{
    if rows.len() > 0 && inputs.len() > 0 {
        let n = if rows.len() < inputs.len() {
            rows.len()
        } else {
            inputs.len()
        };
        let r2 = rows.take(n - 1);
        let i2 = inputs.take(n - 1);
        lemma_submission_fields_ok(r2, i2);
        let fs = submission_fields(rows, inputs)->Ok_0;
        let gs = submission_fields(r2, i2)->Ok_0;
        assert forall|k: int| 0 <= k < fs.len() implies submission_field(rows[k], inputs[k])
            == Ok::<EmbedFieldView, VerifyError>(#[trigger] fs[k]) by {
            if k < n - 1 {
                assert(fs[k] == gs[k]);
                assert(r2[k] == rows[k]);
                assert(i2[k] == inputs[k]);
            }
        }
    }
}

/// The fields of a submitted form, when it goes through: one per row, as
/// far as both the rows and the inputs go; each is named by its input's
/// label and holds the text entered in its row, unchanged, except that the
/// name input's text is sanitized.
pub proof fn lemma_submitted_values(rows: Seq<Seq<ModalComponentView>>, inputs: Seq<TextInputView>)
    requires
        submission_fields(rows, inputs) is Ok,
    ensures
        ({
            let fs = submission_fields(rows, inputs)->Ok_0;
            &&& fs.len() == if rows.len() < inputs.len() {
                rows.len()
            } else {
                inputs.len()
            }
            &&& forall|k: int|
                #![trigger fs[k]]
                0 <= k < fs.len() ==> {
                    &&& rows[k].len() > 0
                    &&& rows[k][0].value is Some
                    &&& fs[k].name == inputs[k].label
                    &&& rows[k][0].custom_id != NAME_CUSTOM_ID@ ==> fs[k].value
                        == rows[k][0].value->Some_0
                    &&& rows[k][0].custom_id == NAME_CUSTOM_ID@ ==> fs[k].value == sanitized_name(
                        rows[k][0].value->Some_0,
                    )
                }
        }),
{
    lemma_submission_fields_ok(rows, inputs);
    let fs = submission_fields(rows, inputs)->Ok_0;
    assert forall|k: int| 0 <= k < fs.len() implies {
        &&& rows[k].len() > 0
        &&& rows[k][0].value is Some
        &&& fs[k].name == inputs[k].label
        &&& rows[k][0].custom_id != NAME_CUSTOM_ID@ ==> fs[k].value == rows[k][0].value->Some_0
        &&& rows[k][0].custom_id == NAME_CUSTOM_ID@ ==> fs[k].value == sanitized_name(
            rows[k][0].value->Some_0,
        )
    } by {
        assert(submission_field(rows[k], inputs[k]) == Ok::<EmbedFieldView, VerifyError>(fs[k]));
    }
}

/// A submission mentions the very user who submitted the form in its first
/// field, then carries the form's answers in order: each field named by its
/// input's label and holding the entered text unchanged, except that the
/// name is sanitized. It goes to the submissions channel.
pub proof fn lemma_submission_contents(config: Config, i: InteractionView)
    requires
        modal_submit_spec(config, i) is Ok,
    ensures
        ({
            let s = modal_submit_spec(config, i)->Ok_0;
            let author = i.author->Some_0;
            let rows = i.data->Some_0->ModalSubmit_rows;
            let fields = s.message.embed->Some_0.fields;
            &&& s.channel_id == config.verification_submissions_channel_id
            &&& s.message.embed is Some
            &&& fields.len() == 1 + if rows.len() < 5 {
                rows.len()
            } else {
                5
            }
            &&& fields[0].name == USER_EMBED_FIELD_NAME@
            &&& fields[0].value == mention(author.id)
            &&& author.id != 0 ==> mention_target(fields[0].value) == Ok::<u64, VerifyError>(
                author.id,
            )
            &&& forall|k: int|
                #![trigger fields[k + 1]]
                0 <= k < fields.len() - 1 ==> {
                    &&& rows[k].len() > 0
                    &&& rows[k][0].value is Some
                    &&& fields[k + 1].name == text_inputs_spec()[k].label
                    &&& rows[k][0].custom_id != NAME_CUSTOM_ID@ ==> fields[k + 1].value
                        == rows[k][0].value->Some_0
                    &&& rows[k][0].custom_id == NAME_CUSTOM_ID@ ==> fields[k + 1].value
                        == sanitized_name(rows[k][0].value->Some_0)
                }
        }),
{
    let author = i.author->Some_0;
    let rows = i.data->Some_0->ModalSubmit_rows;
    lemma_submitted_values(rows, text_inputs_spec());
    if author.id != 0 {
        lemma_mention_roundtrip(author.id);
    }
    let fs = submission_fields(rows, text_inputs_spec())->Ok_0;
    let fields = modal_submit_spec(config, i)->Ok_0.message.embed->Some_0.fields;
    assert(fields == seq![EmbedFieldView { name: USER_EMBED_FIELD_NAME@, value: mention(author.id) }] + fs);
    assert(text_inputs_spec().len() == 5);
    assert forall|k: int| 0 <= k < fields.len() - 1 implies {
        &&& rows[k].len() > 0
        &&& rows[k][0].value is Some
        &&& fields[k + 1].name == text_inputs_spec()[k].label
        &&& rows[k][0].custom_id != NAME_CUSTOM_ID@ ==> fields[k + 1].value
            == rows[k][0].value->Some_0
        &&& rows[k][0].custom_id == NAME_CUSTOM_ID@ ==> fields[k + 1].value
            == sanitized_name(rows[k][0].value->Some_0)
    } by {
        assert(fields[k + 1] == fs[k]);
    }
}

/// Approving a submission verifies the very user who submitted the form and
/// gives them the name entered in its first row (sanitized, when that row
/// is the name input): the approve button sits under the submission
/// message, whose first embed the approval reads. It goes through exactly
/// when Discord accepts that name as a nickname and the approver's reason
/// as an audit log reason.
#[verifier::spinoff_prover]
pub proof fn lemma_approval_follows_submission(
    config: Config,
    submitted: InteractionView,
    guild_id: u64,
    approver: UserView,
    data: Option<InteractionDataView>,
    embeds: Seq<EmbedView>,
)
    requires
        modal_submit_spec(config, submitted) is Ok,
        submitted.author matches Some(u) && u.id != 0,
        submitted.data matches Some(InteractionDataView::ModalSubmit { rows, .. }) && rows.len()
            > 0,
        embeds.len() > 0,
        embeds[0] == modal_submit_spec(config, submitted)->Ok_0.message.embed->Some_0,
    ensures
        ({
            let approval = approve_spec(
                config,
                InteractionView {
                    guild_id: Some(guild_id),
                    author: Some(approver),
                    data,
                    message: Some(embeds),
                },
            );
            let rows = submitted.data->Some_0->ModalSubmit_rows;
            let nick = submission_field(rows[0], text_inputs_spec()[0])->Ok_0.value;
            &&& approval is Ok <==> nickname_ok(nick) && audit_reason_ok(
                approval_reason(approver.name),
            )
            &&& approval is Err ==> approval == if !nickname_ok(nick) {
                Err::<ApprovalView, VerifyError>(VerifyError::InvalidNickname)
            } else {
                Err(VerifyError::InvalidReason)
            }
            &&& approval is Ok ==> approval->Ok_0.user_id == submitted.author->Some_0.id
            &&& approval is Ok ==> approval->Ok_0.nick == nick
            &&& rows[0][0].custom_id == NAME_CUSTOM_ID@ ==> nick == sanitized_name(
                rows[0][0].value->Some_0,
            )
            &&& approval is Ok ==> approval->Ok_0.guild_id == guild_id
            &&& approval is Ok ==> approval->Ok_0.role_id == config.verified_role_id
        }),
{
    let author = submitted.author->Some_0;
    let rows = submitted.data->Some_0->ModalSubmit_rows;
    let inputs = text_inputs_spec();
    lemma_submission_fields_ok(rows, inputs);
    let fs = submission_fields(rows, inputs)->Ok_0;
    let fields = embeds[0].fields;
    assert(fields == seq![
        EmbedFieldView { name: USER_EMBED_FIELD_NAME@, value: mention(author.id) },
    ] + fs);
    assert(fields[0].name == USER_EMBED_FIELD_NAME@);
    assert(find_field(fields, USER_EMBED_FIELD_NAME@, 0) == Some(0nat));
    lemma_mention_roundtrip(author.id);
    assert(fs.len() > 0);
    assert(fields[1] == fs[0]);
    assert(submission_field(rows[0], inputs[0]) == Ok::<EmbedFieldView, VerifyError>(fs[0]));
    assert(fields[1].name == NAME_LABEL@);
    assert(find_field(fields, NAME_LABEL@, 1) == Some(1nat));
}

/// An approval names the approved user and the approver by their full ids:
/// the notice and the record start with a mention that reads back as the
/// user being verified, and the record (and the response, which turns into
/// it) names the approver by a mention of the approver's own id. The member
/// update and the role go to the interaction's guild, with the approver's
/// name as the reason; the notice goes to the approvals channel and the
/// record to the logging channel.
pub proof fn lemma_approval_names_both(config: Config, i: InteractionView)
    requires
        approve_spec(config, i) is Ok,
    ensures
        ({
            let a = approve_spec(config, i)->Ok_0;
            let approver = i.author->Some_0;
            let record = " tarafından doğrulandı."@;
            &&& exists|t: Seq<char>|
                #![trigger mention_target(t)]
                {
                    &&& mention_target(t) == Ok::<u64, VerifyError>(a.user_id)
                    &&& a.notice.embed->Some_0.description == Some(t + ", doğrulandınız!"@)
                    &&& a.record.embed->Some_0.description == Some(
                        t + ", "@ + mention(approver.id) + record,
                    )
                    &&& a.response.embed->Some_0.description == Some(
                        t + ", "@ + mention(approver.id) + record,
                    )
                }
            &&& a.notice.embed is Some
            &&& a.record.embed is Some
            &&& a.response.embed is Some
            &&& a.response.update_last
            &&& !a.record.update_last
            &&& approver.id != 0 ==> mention_target(mention(approver.id)) == Ok::<u64, VerifyError>(
                approver.id,
            )
            &&& a.guild_id == i.guild_id->Some_0
            &&& a.reason == approver.name + " tarafından doğrulandı"@
            &&& a.role_id == config.verified_role_id
            &&& a.approvals_channel_id == config.verification_approvals_channel_id
            &&& a.logging_channel_id == config.verified_logging_channel_id
        }),
{
    let approver = i.author->Some_0;
    let fields = i.message->Some_0[0].fields;
    let u = find_field(fields, USER_EMBED_FIELD_NAME@, 0)->Some_0;
    let t = fields[u as int].value;
    assert(mention_target(t) == Ok::<u64, VerifyError>(approve_spec(config, i)->Ok_0.user_id));
    if approver.id != 0 {
        lemma_mention_roundtrip(approver.id);
    }
}

/// The buttons and the form the bot sends lead back to their handlers: the
/// verification message's button opens the form, the form's submission is
/// taken as one, and the button under a submission approves it.
pub proof fn lemma_sent_ids_route_home(author: u64, fields: Seq<EmbedFieldView>)
    ensures
        route_of(crate::command::verification_message().button->Some_0.custom_id) == Some(
            Route::ModalOpen,
        ),
        route_of(verification_modal().custom_id) == Some(Route::ModalSubmit),
        route_of(submission_message(author, fields).button->Some_0.custom_id) == Some(
            Route::Approve,
        ),
{
    reveal_strlit("verify_modal_open");
    reveal_strlit("verify_modal");
    reveal_strlit("verify_approve");
    assert(MODAL_OPEN_ID@ == "verify_modal_open"@);
    assert(MODAL_ID@ == "verify_modal"@);
    assert(APPROVE_ID@ == "verify_approve"@);
    assert(MODAL_OPEN_ID@.len() != MODAL_ID@.len());
    assert(APPROVE_ID@.len() != MODAL_OPEN_ID@.len());
    assert(APPROVE_ID@[7] != MODAL_ID@[7]);
}

/// The verification form's handlers, on the interaction being handled.
pub struct Context(pub crate::interaction::Context);

/// The modal that the verification form opens as.
pub open spec fn verification_modal() -> ModalView {
    ModalView { custom_id: MODAL_ID@, title: "Verification"@, inputs: text_inputs_spec() }
}

impl Context {
    /// The modal to open when the verification button is pressed.
    pub fn modal_open(&self) -> (r: Modal)
        ensures
            r@ == verification_modal(),
    {
        Modal { custom_id: owned(MODAL_ID), title: owned("Verification"), inputs: text_inputs() }
    }
}


impl Context {
    /// Turns the submitted form into the submission message for the admins
    /// and the response to the submitting user, as `modal_submit_spec` says.
    pub fn modal_submit(&self) -> (r: Result<Submission, VerifyError>)
        ensures
            submission_result_view(r) == modal_submit_spec(self.0.config, self.0.interaction@),
    {
        let interaction = &self.0.interaction;
        let author_id = match &interaction.author {
            Some(a) => a.id,
            None => return Err(VerifyError::MissingAuthor),
        };
        let rows = match &interaction.data {
            None => return Err(VerifyError::MissingData),
            Some(InteractionData::ModalSubmit { rows, .. }) => rows,
            Some(_) => return Err(VerifyError::NotModal),
        };
        let inputs = text_inputs();
        assert(interaction@.data == Some(InteractionDataView::ModalSubmit { custom_id: interaction@.data->Some_0->ModalSubmit_custom_id, rows: rows_view(rows@) }));
        let form_fields = match submitted_fields(rows, &inputs) {
            Ok(fs) => fs,
            Err(e) => return Err(e),
        };
        let mut fields: Vec<EmbedField> = Vec::new();
        fields.push(
            EmbedField { name: owned(USER_EMBED_FIELD_NAME), value: format_mention(author_id) },
        );
        let ghost first = fields_view(fields@);
        let ghost rest = fields_view(form_fields@);
        let mut form_fields = form_fields;
        fields.append(&mut form_fields);
        assert(fields_view(fields@) =~= first + rest);
        assert(first =~= seq![EmbedFieldView { name: USER_EMBED_FIELD_NAME@, value: mention(author_id) }]);
        let embed = Embed { title: Some(owned("Doğrulama Formu Dolduruldu")), description: None, fields };
        let button = Button {
            custom_id: owned(APPROVE_ID),
            label: owned("Doğrula"),
            style: ButtonStyle::Success,
        };
        let message = Reply {
            content: None,
            embed: Some(embed),
            button: Some(button),
            ephemeral: false,
            update_last: false,
        };
        let response = ephemeral_text(
            "Doğrulamanız iletildi, yakında doğrulanacaksınız. Teşekkürler!",
        );
        assert(message@ == submission_message(author_id, rest));
        assert(response@.content == Some(submission_received()));
        Ok(
            Submission {
                channel_id: self.0.config.verification_submissions_channel_id,
                message,
                response,
            },
        )
    }

    /// Turns a press on the approve button into the approval to carry out,
    /// as `approve_spec` says.
    pub fn approve(&self) -> (r: Result<Approval, VerifyError>)
        ensures
            approval_result_view(r) == approve_spec(self.0.config, self.0.interaction@),
    {
        let config = self.0.config;
        let interaction = &self.0.interaction;
        let guild_id = match interaction.guild_id {
            Some(g) => g,
            None => return Err(VerifyError::MissingGuild),
        };
        let approver = match &interaction.author {
            Some(a) => a,
            None => return Err(VerifyError::MissingAuthor),
        };
        let message = match &interaction.message {
            Some(m) => m,
            None => return Err(VerifyError::MissingMessage),
        };
        if message.embeds.len() == 0 {
            return Err(VerifyError::MissingEmbed);
        }
        let fields = &message.embeds[0].fields;
        let ghost fv = fields_view(fields@);
        assert(interaction@.message == Some(message@));
        assert(message@[0].fields == fv);
        let u = match find_field_from(fields, USER_EMBED_FIELD_NAME, 0) {
            Some(u) => u,
            None => return Err(VerifyError::MissingUserField),
        };
        let user_mention = fields[u].value.clone();
        assert(fv[u as int].value == user_mention@);
        let user_id = match parse_mention(user_mention.as_str()) {
            Ok(id) => id,
            Err(e) => return Err(e),
        };
        let n = match find_field_from(fields, NAME_LABEL, u + 1) {
            Some(n) => n,
            None => return Err(VerifyError::MissingNameField),
        };
        let nick = fields[n].value.clone();
        assert(fv[n as int].value == nick@);
        if !nickname_accepted(nick.as_str()) {
            return Err(VerifyError::InvalidNickname);
        }
        let mut reason = approver.name.clone();
        reason.append(" tarafından doğrulandı");
        if !audit_reason_accepted(reason.as_str()) {
            return Err(VerifyError::InvalidReason);
        }
        let mut notice_text = user_mention.clone();
        notice_text.append(", doğrulandınız!");
        let notice = Reply {
            content: None,
            embed: Some(description_embed(notice_text)),
            button: None,
            ephemeral: false,
            update_last: false,
        };
        let approver_mention = format_mention(approver.id);
        let mut record_text = user_mention.clone();
        record_text.append(", ");
        record_text.append(approver_mention.as_str());
        record_text.append(" tarafından doğrulandı.");
        let record = Reply {
            content: None,
            embed: Some(description_embed(record_text.clone())),
            button: None,
            ephemeral: false,
            update_last: false,
        };
        let response = Reply {
            content: None,
            embed: Some(description_embed(record_text)),
            button: None,
            ephemeral: false,
            update_last: true,
        };
        Ok(
            Approval {
                guild_id,
                user_id,
                nick,
                reason,
                role_id: config.verified_role_id,
                approvals_channel_id: config.verification_approvals_channel_id,
                notice,
                logging_channel_id: config.verified_logging_channel_id,
                record,
                response,
            },
        )
    }
}

} // verus!
