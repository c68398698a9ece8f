//! The shared state container: synchronized read and write access to one
//! [`State`] for many concurrent callers.
//!
//! The container is a reader-writer lock whose invariant is the consistency
//! of the stored (configuration, handle) pair. Reads are non-exclusive among
//! themselves; every mutation is exclusive. The lock is held only across the
//! in-memory step: a chat command leaves the dispatcher with a snapshot and
//! the request to send, and the downstream network call is made by the
//! caller with no lock held.
//!
//! Because every value that can be stored satisfies the invariant, no
//! caller — however the concurrent dispatches interleave — can observe a
//! handle paired with a configuration other than the one it was derived
//! from.

use vstd::prelude::*;
use vstd::rwlock::{RwLock, RwLockPredicate};
use vstd::string::StringExecFns;

use crate::chat::ChatRequest;
use crate::command::Command;
use crate::config::{derived_client, ClientHandle, Config, ConfigView};
use crate::dispatch::{
    help_text, help_text_spec, show_config_reply, show_config_reply_spec,
    update_endpoint_reply_spec, update_model_reply_spec, Action, ActionView, DownstreamCall,
};
use crate::state::State;

verus! {

/// The invariant of the shared container: every stored state is
/// well-formed, that is, holds a consistent (configuration, handle) pair.
pub struct ConsistentState;

impl RwLockPredicate<State> for ConsistentState {
    open spec fn inv(self, v: State) -> bool {
        v.wf()
    }
}

/// The shared state container: one [`State`] behind a reader-writer lock,
/// accessed concurrently by every incoming command.
pub struct SharedState {
    lock: RwLock<State, ConsistentState>,
}

impl State {
    /// Moves a well-formed state into a shared container.
    pub fn new_shared(state: State) -> (r: SharedState)
        requires
            state.wf(),
    {
        SharedState { lock: RwLock::new(state, Ghost(ConsistentState)) }
    }
}

impl SharedState {
    /// Counts one dispatched command. Exclusive with all other accesses for
    /// the duration of the in-memory bump only.
    pub fn increment_counter(&self) {
        let (mut state, handle) = self.lock.acquire_write();
        state.increment_counter();
        handle.release_write(state);
    }

    /// Returns the (configuration, handle) pair as it existed at the moment
    /// of the call. The pair is consistent: the handle is the one derived
    /// from the configuration beside it.
    pub fn read_snapshot(&self) -> (r: (Config, ClientHandle))
        ensures
            r.1@ == derived_client(r.0@),
    {
        let read_handle = self.lock.acquire_read();
        let snapshot = read_handle.borrow().read_snapshot();
        read_handle.release_read();
        snapshot
    }

    /// Replaces the base URL and atomically installs, together with the
    /// updated configuration, the handle rebuilt from it, excluding all
    /// concurrent readers and writers for the duration of the swap.
    pub fn replace_endpoint(&self, url: String) {
        let (mut state, handle) = self.lock.acquire_write();
        state.replace_endpoint(url);
        handle.release_write(state);
    }

    /// Replaces the model identifier and atomically installs, together with
    /// the updated configuration, the handle rebuilt from it, excluding all
    /// concurrent readers and writers for the duration of the swap.
    pub fn replace_model(&self, model: String) {
        let (mut state, handle) = self.lock.acquire_write();
        state.replace_model(model);
        handle.release_write(state);
    }

    /// Executes one command against the shared container: counts it, then
    /// performs its effect. A chat command is handed back as a downstream
    /// call built from one consistent snapshot; no lock is held while the
    /// caller performs the network call.
    pub fn dispatch(&self, cmd: Command) -> (r: Action)
        ensures
            cmd@ is Help ==> r@ == ActionView::Reply(help_text_spec()),
            cmd@ is ShowConfig ==> exists|c: ConfigView| r@ == ActionView::Reply(
                #[trigger] show_config_reply_spec(c),
            ),
            cmd@ is UpdateEndpoint ==> r@ == ActionView::Reply(update_endpoint_reply_spec()),
            cmd@ is UpdateModel ==> r@ == ActionView::Reply(update_model_reply_spec()),
            cmd@ is Chat ==> r@ is Downstream && {
                let call = r@->Downstream_0;
                &&& call.client == derived_client(call.config)
                &&& call.request.model == call.config.openai_model
                &&& call.request.text == cmd@->Chat_0
            },
    {
        self.increment_counter();
        match cmd {
            Command::Help => Action::Reply(help_text()),
            Command::ShowConfig => {
                let (config, _client) = self.read_snapshot();
                Action::Reply(show_config_reply(&config))
            },
            Command::Chat(text) => {
                let (config, client) = self.read_snapshot();
                let model = config.openai_model().clone();
                Action::Downstream(DownstreamCall { config, client, request: ChatRequest { model, text } })
            },
            Command::UpdateEndpoint(url) => {
                self.replace_endpoint(url);
                Action::Reply(String::from_str("Update endpoint successful."))
            },
            Command::UpdateModel(model) => {
                self.replace_model(model);
                Action::Reply(String::from_str("Update model successful."))
            },
        }
    }
}

} // verus!
