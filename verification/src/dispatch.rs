//! The command dispatcher: one dispatch step per command.
//!
//! Every dispatch first counts the command, then executes exactly one
//! command effect: a pure reply, a read of the current configuration, a
//! configuration replacement, or the hand-off of a downstream chat call.
//! [`step_spec`] is the mathematical transition the dispatcher implements;
//! [`dispatch`] is proved to follow it exactly.

use vstd::prelude::*;
use vstd::string::StringExecFns;

use crate::chat::{ChatRequest, ChatRequestView};
use crate::command::{Command, CommandView};
use crate::config::{derived_client, ClientHandle, ClientHandleView, Config, ConfigView};
use crate::state::{bump, State, StateView};

verus! {

/// Spec-level image of a [`DownstreamCall`].
#[verifier::ext_equal]
pub struct DownstreamCallView {
    pub config: ConfigView,
    pub client: ClientHandleView,
    pub request: ChatRequestView,
}

/// The hand-off of a chat command: the (configuration, handle) snapshot the
/// dispatcher read, and the request to send through that handle. The
/// downstream call is made outside the dispatcher, so no lock is held
/// across network I/O.
pub struct DownstreamCall {
    pub config: Config,
    pub client: ClientHandle,
    pub request: ChatRequest,
}

impl View for DownstreamCall {
    type V = DownstreamCallView;

    open spec fn view(&self) -> DownstreamCallView {
        DownstreamCallView { config: self.config@, client: self.client@, request: self.request@ }
    }
}

/// Spec-level image of an [`Action`].
#[verifier::ext_equal]
pub enum ActionView {
    Reply(Seq<char>),
    Downstream(DownstreamCallView),
}

/// What one dispatch step asks its caller to do: send a reply, or perform
/// the downstream chat call and then send the reply it yields.
pub enum Action {
    Reply(String),
    Downstream(DownstreamCall),
}

impl View for Action {
    type V = ActionView;

    open spec fn view(&self) -> ActionView {
        match self {
            Action::Reply(s) => ActionView::Reply(s@),
            Action::Downstream(c) => ActionView::Downstream(c@),
        }
    }
}

/// The descriptive text enumerating all commands.
pub open spec fn help_text_spec() -> Seq<char> {
    "These commands are supported:\n/help - display this text.\n/current-config - show current config.\n/kimi - chat with kimi.\n/update-endpoint - update the endpoint config of kimi.\n/update-model - update the model config of kimi."@
}

/// Returns the static descriptive text enumerating all commands.
pub fn help_text() -> (r: String)
    ensures
        r@ == help_text_spec(),
{
    String::from_str(
        "These commands are supported:\n/help - display this text.\n/current-config - show current config.\n/kimi - chat with kimi.\n/update-endpoint - update the endpoint config of kimi.\n/update-model - update the model config of kimi.",
    )
}

/// The reply reporting the current base URL and model identifier.
pub open spec fn show_config_reply_spec(c: ConfigView) -> Seq<char> {
    "config: url("@ + c.openai_url + "), model("@ + c.openai_model + ")"@
}

/// Formats the current base URL and model identifier into a reply.
pub fn show_config_reply(config: &Config) -> (r: String)
    ensures
        r@ == show_config_reply_spec(config@),
{
    String::from_str("config: url(")
        .concat(config.openai_url().as_str())
        .concat("), model(")
        .concat(config.openai_model().as_str())
        .concat(")")
}

/// The reply confirming a base-URL replacement.
pub open spec fn update_endpoint_reply_spec() -> Seq<char> {
    "Update endpoint successful."@
}

/// The reply confirming a model replacement.
pub open spec fn update_model_reply_spec() -> Seq<char> {
    "Update model successful."@
}

/// The transition the dispatcher implements: from a state and a command to
/// the state after the step and the action the step asks for. The counter
/// is bumped on every command; only the two update commands change the
/// (configuration, handle) pair, and they install the handle rebuilt from
/// the updated configuration together with it.
pub open spec fn step_spec(s: StateView, cmd: CommandView) -> (StateView, ActionView) {
    let counted = StateView { messages_total: bump(s.messages_total), client: s.client, config: s.config };
    match cmd {
        CommandView::Help => (counted, ActionView::Reply(help_text_spec())),
        CommandView::ShowConfig => (counted, ActionView::Reply(show_config_reply_spec(s.config))),
        CommandView::Chat(text) => (
            counted,
            ActionView::Downstream(
                DownstreamCallView {
                    config: s.config,
                    client: s.client,
                    request: ChatRequestView { model: s.config.openai_model, text },
                },
            ),
        ),
        CommandView::UpdateEndpoint(url) => {
            let updated = ConfigView {
                openai_key: s.config.openai_key,
                openai_url: url,
                openai_model: s.config.openai_model,
            };
            (
                StateView {
                    messages_total: counted.messages_total,
                    client: derived_client(updated),
                    config: updated,
                },
                ActionView::Reply(update_endpoint_reply_spec()),
            )
        },
        CommandView::UpdateModel(model) => {
            let updated = ConfigView {
                openai_key: s.config.openai_key,
                openai_url: s.config.openai_url,
                openai_model: model,
            };
            (
                StateView {
                    messages_total: counted.messages_total,
                    client: derived_client(updated),
                    config: updated,
                },
                ActionView::Reply(update_model_reply_spec()),
            )
        },
    }
}

/// Executes one command against the state: counts it, then performs its
/// effect, following [`step_spec`] exactly.
pub fn dispatch(state: &mut State, cmd: Command) -> (r: Action)
    ensures
        final(state)@ == step_spec(old(state)@, cmd@).0,
        r@ == step_spec(old(state)@, cmd@).1,
{
    state.increment_counter();
    let r = match cmd {
        Command::Help => Action::Reply(help_text()),
        Command::ShowConfig => Action::Reply(show_config_reply(&state.config)),
        Command::Chat(text) => {
            let (config, client) = state.read_snapshot();
            let model = config.openai_model().clone();
            Action::Downstream(DownstreamCall { config, client, request: ChatRequest { model, text } })
        },
        Command::UpdateEndpoint(url) => {
            state.replace_endpoint(url);
            Action::Reply(String::from_str("Update endpoint successful."))
        },
        Command::UpdateModel(model) => {
            state.replace_model(model);
            Action::Reply(String::from_str("Update model successful."))
        },
    };
    proof {
        assert(state@ =~= step_spec(old(state)@, cmd@).0);
        assert(r@ =~= step_spec(old(state)@, cmd@).1);
    }
    r
}

} // verus!
