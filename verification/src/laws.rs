//! Laws of the dispatcher, stated over [`step_spec`] and proved once for
//! all states and payloads.

use vstd::prelude::*;

use crate::command::CommandView;
use crate::config::derived_client;
use crate::dispatch::{step_spec, ActionView};
use crate::state::StateView;

verus! {

/// The state after dispatching each command of `cmds` in order, starting
/// from `s`.
pub open spec fn run_spec(s: StateView, cmds: Seq<CommandView>) -> StateView
    decreases cmds.len(),
{
    if cmds.len() == 0 {
        s
    } else {
        run_spec(step_spec(s, cmds[0]).0, cmds.drop_first())
    }
}

/// Law: the request counter counts dispatched commands. After any sequence
/// of commands short enough to keep the counter in range, the counter has
/// grown by exactly the number of commands, regardless of command type or
/// order.
pub proof fn lemma_counter_counts_dispatches(s: StateView, cmds: Seq<CommandView>)
    requires
        s.messages_total + cmds.len() <= u64::MAX,
    ensures
        run_spec(s, cmds).messages_total == s.messages_total + cmds.len(),
    decreases cmds.len(),
{
    if cmds.len() > 0 {
        lemma_counter_counts_dispatches(step_spec(s, cmds[0]).0, cmds.drop_first());
    }
}

/// Law: every dispatch step preserves consistency of the stored pair — if
/// the handle was derived from the configuration beside it, the same holds
/// after the step.
pub proof fn lemma_step_preserves_consistency(s: StateView, cmd: CommandView)
    requires
        s.client == derived_client(s.config),
    ensures
        step_spec(s, cmd).0.client == derived_client(step_spec(s, cmd).0.config),
{
}

/// Law: read-after-write consistency for a single, non-racing caller — a
/// show-config step right after a successful endpoint update reports
/// exactly the new URL, with the model unchanged.
pub proof fn lemma_show_config_after_update_endpoint(s: StateView, url: Seq<char>)
    ensures
        ({
            let updated = step_spec(s, CommandView::UpdateEndpoint(url)).0;
            step_spec(updated, CommandView::ShowConfig).1 == ActionView::Reply(
                "config: url("@ + url + "), model("@ + s.config.openai_model + ")"@,
            )
        }),
{
}

/// Law: no stale model — a chat step right after a model update hands the
/// downstream call the updated model and the given text.
pub proof fn lemma_chat_uses_updated_model(s: StateView, model: Seq<char>, text: Seq<char>)
    ensures
        ({
            let updated = step_spec(s, CommandView::UpdateModel(model)).0;
            let action = step_spec(updated, CommandView::Chat(text)).1;
            &&& action is Downstream
            &&& action->Downstream_0.request.model == model
            &&& action->Downstream_0.request.text == text
        }),
{
}

/// Law: a chat step on a consistent state hands out a snapshot whose
/// handle is derived from the configuration beside it and whose request
/// carries exactly that configuration's model.
pub proof fn lemma_chat_snapshot_consistent(s: StateView, text: Seq<char>)
    requires
        s.client == derived_client(s.config),
    ensures
        ({
            let action = step_spec(s, CommandView::Chat(text)).1;
            &&& action is Downstream
            &&& action->Downstream_0.client == derived_client(action->Downstream_0.config)
            &&& action->Downstream_0.request.model == action->Downstream_0.config.openai_model
        }),
{
}

} // verus!
