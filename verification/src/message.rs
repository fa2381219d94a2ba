use vstd::prelude::*;

verus! {

/// A field of an embed: a name and a value.
#[derive(Clone, Debug, PartialEq, Eq)]
pub struct EmbedField {
    pub name: String,
    pub value: String,
}

pub struct EmbedFieldView {
    pub name: Seq<char>,
    pub value: Seq<char>,
}

impl View for EmbedField {
    type V = EmbedFieldView;

    open spec fn view(&self) -> EmbedFieldView {
        EmbedFieldView { name: self.name@, value: self.value@ }
    }
}

/// The fields of an embed, each seen by its view.
pub open spec fn fields_view(fields: Seq<EmbedField>) -> Seq<EmbedFieldView> {
    fields.map_values(|f: EmbedField| f@)
}

/// An embed of a message: an optional title and description, and fields.
#[derive(Clone, Debug, PartialEq, Eq)]
pub struct Embed {
    pub title: Option<String>,
    pub description: Option<String>,
    pub fields: Vec<EmbedField>,
}

pub struct EmbedView {
    pub title: Option<Seq<char>>,
    pub description: Option<Seq<char>>,
    pub fields: Seq<EmbedFieldView>,
}

impl View for Embed {
    type V = EmbedView;

    open spec fn view(&self) -> EmbedView {
        EmbedView {
            title: self.title.deep_view(),
            description: self.description.deep_view(),
            fields: fields_view(self.fields@),
        }
    }
}

/// The look of a button.
#[derive(Clone, Copy, Debug, PartialEq, Eq)]
pub enum ButtonStyle {
    Primary,
    Success,
}

/// A button that sends an interaction with its custom id when pressed.
#[derive(Clone, Debug, PartialEq, Eq)]
pub struct Button {
    pub custom_id: String,
    pub label: String,
    pub style: ButtonStyle,
}

pub struct ButtonView {
    pub custom_id: Seq<char>,
    pub label: Seq<char>,
    pub style: ButtonStyle,
}

impl View for Button {
    type V = ButtonView;

    open spec fn view(&self) -> ButtonView {
        ButtonView { custom_id: self.custom_id@, label: self.label@, style: self.style }
    }
}

/// A message to send: text content, one embed, and one button in an action
/// row, each optional; whether only the interacting user sees it, and
/// whether it replaces the last response to the interaction.
#[derive(Clone, Debug, PartialEq, Eq)]
pub struct Reply {
    pub content: Option<String>,
    pub embed: Option<Embed>,
    pub button: Option<Button>,
    pub ephemeral: bool,
    pub update_last: bool,
}

pub struct ReplyView {
    pub content: Option<Seq<char>>,
    pub embed: Option<EmbedView>,
    pub button: Option<ButtonView>,
    pub ephemeral: bool,
    pub update_last: bool,
}

impl View for Reply {
    type V = ReplyView;

    open spec fn view(&self) -> ReplyView {
        ReplyView {
            content: self.content.deep_view(),
            embed: match self.embed {
                Some(e) => Some(e@),
                None => None,
            },
            button: match self.button {
                Some(b) => Some(b@),
                None => None,
            },
            ephemeral: self.ephemeral,
            update_last: self.update_last,
        }
    }
}

/// How a text input is shown: one line or several.
#[derive(Clone, Copy, Debug, PartialEq, Eq)]
pub enum TextInputStyle {
    Short,
    Paragraph,
}

/// A text input of a modal.
#[derive(Clone, Debug, PartialEq, Eq)]
pub struct TextInput {
    pub custom_id: String,
    pub label: String,
    pub style: TextInputStyle,
    pub min_length: Option<u16>,
    pub max_length: Option<u16>,
    pub placeholder: Option<String>,
    pub required: Option<bool>,
    pub value: Option<String>,
}

pub struct TextInputView {
    pub custom_id: Seq<char>,
    pub label: Seq<char>,
    pub style: TextInputStyle,
    pub min_length: Option<u16>,
    pub max_length: Option<u16>,
    pub placeholder: Option<Seq<char>>,
    pub required: Option<bool>,
    pub value: Option<Seq<char>>,
}

impl View for TextInput {
    type V = TextInputView;

    open spec fn view(&self) -> TextInputView {
        TextInputView {
            custom_id: self.custom_id@,
            label: self.label@,
            style: self.style,
            min_length: self.min_length,
            max_length: self.max_length,
            placeholder: self.placeholder.deep_view(),
            required: self.required,
            value: self.value.deep_view(),
        }
    }
}

/// Text inputs, each seen by its view.
pub open spec fn inputs_view(inputs: Seq<TextInput>) -> Seq<TextInputView> {
    inputs.map_values(|t: TextInput| t@)
}

/// A modal to open: its custom id, title and text inputs.
#[derive(Clone, Debug, PartialEq, Eq)]
pub struct Modal {
    pub custom_id: String,
    pub title: String,
    pub inputs: Vec<TextInput>,
}

pub struct ModalView {
    pub custom_id: Seq<char>,
    pub title: Seq<char>,
    pub inputs: Seq<TextInputView>,
}

impl View for Modal {
    type V = ModalView;

    open spec fn view(&self) -> ModalView {
        ModalView {
            custom_id: self.custom_id@,
            title: self.title@,
            inputs: inputs_view(self.inputs@),
        }
    }
}

/// A copy of a string literal as a `String`.
pub fn owned(s: &str) -> (r: String)
    ensures
        r@ == s@,
{
    String::from_str(s)
}

/// A text input with the given id, label and style, and nothing else set.
pub fn plain_input(custom_id: &str, label: &str, style: TextInputStyle) -> (r: TextInput)
    ensures
        r@ == (TextInputView {
            custom_id: custom_id@,
            label: label@,
            style: style,
            min_length: None,
            max_length: None,
            placeholder: None,
            required: None,
            value: None,
        }),
{
    TextInput {
        custom_id: owned(custom_id),
        label: owned(label),
        style,
        min_length: None,
        max_length: None,
        placeholder: None,
        required: None,
        value: None,
    }
}

/// A reply of text that only the interacting user sees.
pub fn ephemeral_text(content: &str) -> (r: Reply)
    ensures
        r@ == (ReplyView {
            content: Some(content@),
            embed: None,
            button: None,
            ephemeral: true,
            update_last: false,
        }),
{
    Reply {
        content: Some(owned(content)),
        embed: None,
        button: None,
        ephemeral: true,
        update_last: false,
    }
}

/// An embed that holds only a description.
pub fn description_embed(description: String) -> (r: Embed)
    ensures
        r@ == (EmbedView { title: None, description: Some(description@), fields: seq![] }),
{
    let fields: Vec<EmbedField> = Vec::new();
    let r = Embed { title: None, description: Some(description), fields };
    assert(r@.fields =~= seq![]);
    r
}

} // verus!
