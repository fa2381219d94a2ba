use vstd::prelude::*;

use crate::message::{Embed, EmbedView, Reply};
use crate::{err_reply, err_reply_view, Config, Error, UserError};

pub mod verification;
pub mod verify;

verus! {

/// A Discord user: the id and the user name.
#[derive(Clone, Debug, PartialEq, Eq)]
pub struct User {
    pub id: u64,
    pub name: String,
}

pub struct UserView {
    pub id: u64,
    pub name: Seq<char>,
}

impl View for User {
    type V = UserView;

    open spec fn view(&self) -> UserView {
        UserView { id: self.id, name: self.name@ }
    }
}

/// A component of a submitted modal: its custom id and the text entered.
#[derive(Clone, Debug, PartialEq, Eq)]
pub struct ModalComponent {
    pub custom_id: String,
    pub value: Option<String>,
}

pub struct ModalComponentView {
    pub custom_id: Seq<char>,
    pub value: Option<Seq<char>>,
}

impl View for ModalComponent {
    type V = ModalComponentView;

    open spec fn view(&self) -> ModalComponentView {
        ModalComponentView { custom_id: self.custom_id@, value: self.value.deep_view() }
    }
}

/// An action row of a submitted modal.
#[derive(Clone, Debug, PartialEq, Eq)]
pub struct ModalRow {
    pub components: Vec<ModalComponent>,
}

impl View for ModalRow {
    type V = Seq<ModalComponentView>;

    open spec fn view(&self) -> Seq<ModalComponentView> {
        self.components@.map_values(|c: ModalComponent| c@)
    }
}

/// The rows of a submitted modal, each seen by its view.
pub open spec fn rows_view(rows: Seq<ModalRow>) -> Seq<Seq<ModalComponentView>> {
    rows.map_values(|r: ModalRow| r@)
}

/// What an interaction carries: a slash command, a press on a message
/// component, a submitted modal, or something else.
#[derive(Clone, Debug, PartialEq, Eq)]
pub enum InteractionData {
    ApplicationCommand { name: String },
    MessageComponent { custom_id: String },
    ModalSubmit { custom_id: String, rows: Vec<ModalRow> },
    Other,
}

pub enum InteractionDataView {
    ApplicationCommand { name: Seq<char> },
    MessageComponent { custom_id: Seq<char> },
    ModalSubmit { custom_id: Seq<char>, rows: Seq<Seq<ModalComponentView>> },
    Other,
}

impl View for InteractionData {
    type V = InteractionDataView;

    open spec fn view(&self) -> InteractionDataView {
        match self {
            InteractionData::ApplicationCommand { name } => InteractionDataView::ApplicationCommand {
                name: name@,
            },
            InteractionData::MessageComponent { custom_id } => InteractionDataView::MessageComponent {
                custom_id: custom_id@,
            },
            InteractionData::ModalSubmit { custom_id, rows } => InteractionDataView::ModalSubmit {
                custom_id: custom_id@,
                rows: rows_view(rows@),
            },
            InteractionData::Other => InteractionDataView::Other,
        }
    }
}

/// The message that a component interaction was started from.
#[derive(Clone, Debug, PartialEq, Eq)]
pub struct Message {
    pub embeds: Vec<Embed>,
}

impl View for Message {
    type V = Seq<EmbedView>;

    open spec fn view(&self) -> Seq<EmbedView> {
        self.embeds@.map_values(|e: Embed| e@)
    }
}

/// An interaction as the bot reads it: the guild it happened in, the user
/// who started it, what it carries, and the message it was started from.
#[derive(Clone, Debug, PartialEq, Eq)]
pub struct Interaction {
    pub guild_id: Option<u64>,
    pub author: Option<User>,
    pub data: Option<InteractionData>,
    pub message: Option<Message>,
}

pub struct InteractionView {
    pub guild_id: Option<u64>,
    pub author: Option<UserView>,
    pub data: Option<InteractionDataView>,
    pub message: Option<Seq<EmbedView>>,
}

impl View for Interaction {
    type V = InteractionView;

    open spec fn view(&self) -> InteractionView {
        InteractionView {
            guild_id: self.guild_id,
            author: match self.author {
                Some(u) => Some(u@),
                None => None,
            },
            data: match self.data {
                Some(d) => Some(d@),
                None => None,
            },
            message: match self.message {
                Some(m) => Some(m@),
                None => None,
            },
        }
    }
}

/// The name an interaction goes by: a command's name, or the custom id of
/// the pressed component or the submitted modal.
pub open spec fn interaction_name(i: InteractionView) -> Option<Seq<char>> {
    match i.data {
        Some(InteractionDataView::ApplicationCommand { name }) => Some(name),
        Some(InteractionDataView::MessageComponent { custom_id }) => Some(custom_id),
        Some(InteractionDataView::ModalSubmit { custom_id, .. }) => Some(custom_id),
        _ => None,
    }
}

impl Interaction {
    /// The name the interaction goes by, as `interaction_name` says.
    pub fn name(&self) -> (r: Option<String>)
        ensures
            r.deep_view() == interaction_name(self@),
    {
        match &self.data {
            Some(InteractionData::ApplicationCommand { name }) => Some(name.clone()),
            Some(InteractionData::MessageComponent { custom_id }) => Some(custom_id.clone()),
            Some(InteractionData::ModalSubmit { custom_id, .. }) => Some(custom_id.clone()),
            _ => None,
        }
    }
}

/// An interaction to handle, with the bot's configuration.
#[derive(Clone, Debug, PartialEq, Eq)]
pub struct Context {
    pub config: Config,
    pub interaction: Interaction,
}

/// The interaction context, by the name the short form's handlers use.
pub type InteractionContext = Context;

/// Which handler an interaction goes to.
#[derive(Clone, Copy, Debug, PartialEq, Eq)]
pub enum Route {
    /// The button under the verification message: open the form.
    ModalOpen,
    /// The filled-in form.
    ModalSubmit,
    /// The approve button under a submission.
    Approve,
}

/// Which handler serves an interaction of the given name: `None` for a name
/// that no handler serves.
pub open spec fn route_of(name: Seq<char>) -> Option<Route> {
    if name == verify::MODAL_OPEN_ID@ {
        Some(Route::ModalOpen)
    } else if name == verify::MODAL_ID@ {
        Some(Route::ModalSubmit)
    } else if name == verify::APPROVE_ID@ {
        Some(Route::Approve)
    } else {
        None
    }
}

/// What handling the interaction starts with: the handler to run, or the
/// error that stops it.
pub open spec fn handle_spec(i: InteractionView) -> Result<Route, Seq<char>> {
    match interaction_name(i) {
        None => Err(seq![]),
        Some(name) => match route_of(name) {
            Some(r) => Ok(r),
            None => Err(name),
        },
    }
}

/// What a handler's failure is answered with: the reply to the user, and
/// whether the failure is passed on to the caller (internal errors only).
pub struct Failure {
    pub reply: Reply,
    pub propagate: bool,
}

impl Context {
    /// Picks the handler of the interaction by its name. An interaction
    /// without a name is `MissingInteractionName`, which the caller returns
    /// without reporting it; one whose name no handler serves is
    /// `UnknownInteraction` holding the whole interaction, which the caller
    /// reports.
    pub fn handle(self) -> (r: Result<Route, Error>)
        ensures
            match (r, handle_spec(self.interaction@)) {
                (Ok(a), Ok(b)) => a == b,
                (Err(Error::MissingInteractionName), Err(n)) => interaction_name(
                    self.interaction@,
                ) is None,
                (Err(Error::UnknownInteraction(i)), Err(n)) => interaction_name(
                    self.interaction@,
                ) is Some && i == self.interaction,
                _ => false,
            },
    {
        let name = match self.interaction.name() {
            Some(n) => n,
            None => return Err(Error::MissingInteractionName),
        };
        let open_id = crate::message::owned(verify::MODAL_OPEN_ID);
        let modal_id = crate::message::owned(verify::MODAL_ID);
        let approve_id = crate::message::owned(verify::APPROVE_ID);
        if name == open_id {
            Ok(Route::ModalOpen)
        } else if name == modal_id {
            Ok(Route::ModalSubmit)
        } else if name == approve_id {
            Ok(Route::Approve)
        } else {
            Err(Error::UnknownInteraction(self.interaction))
        }
    }

    /// What a failed handler leads to: the user is shown `err_reply` of the
    /// user-facing error, and the failure is passed on exactly when it is
    /// internal.
    pub fn failure(user_error: &UserError) -> (r: Failure)
        ensures
            r.reply@ == err_reply_view(*user_error),
            r.propagate == (*user_error is Internal),
    {
        let reply = err_reply(user_error);
        let propagate = match user_error {
            UserError::Internal => true,
            _ => false,
        };
        Failure { reply, propagate }
    }
}

} // verus!
