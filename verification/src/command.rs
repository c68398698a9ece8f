//! The closed set of commands the dispatcher executes.

use vstd::prelude::*;

verus! {

/// Spec-level image of a [`Command`].
#[verifier::ext_equal]
pub enum CommandView {
    Help,
    ShowConfig,
    Chat(Seq<char>),
    UpdateEndpoint(Seq<char>),
    UpdateModel(Seq<char>),
}

/// A parsed command, each variant carrying its own payload. The transport
/// collaborator delivers one per recognised user message.
pub enum Command {
    /// Ask for the descriptive text enumerating all commands.
    Help,
    /// Ask for the current base URL and model identifier.
    ShowConfig,
    /// Forward the carried user message to the downstream chat API.
    Chat(String),
    /// Replace the configuration's base URL.
    UpdateEndpoint(String),
    /// Replace the configuration's model identifier.
    UpdateModel(String),
}

impl View for Command {
    type V = CommandView;

    open spec fn view(&self) -> CommandView {
        match self {
            Command::Help => CommandView::Help,
            Command::ShowConfig => CommandView::ShowConfig,
            Command::Chat(text) => CommandView::Chat(text@),
            Command::UpdateEndpoint(url) => CommandView::UpdateEndpoint(url@),
            Command::UpdateModel(model) => CommandView::UpdateModel(model@),
        }
    }
}

} // verus!
