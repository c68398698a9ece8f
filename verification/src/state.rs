//! The mutable runtime state: the request counter plus the current
//! (configuration, client handle) pair.
//!
//! The consistency invariant of the store is [`State::wf`]: the handle held
//! next to a configuration is exactly the one the factory derives from that
//! configuration. Both update paths rebuild the handle and install the new
//! pair together, so the invariant is preserved by every mutation.

use vstd::prelude::*;

use crate::config::{derived_client, ClientHandle, ClientHandleView, Config, ConfigView};

verus! {

/// Spec-level image of a [`State`].
#[verifier::ext_equal]
pub struct StateView {
    pub messages_total: u64,
    pub client: ClientHandleView,
    pub config: ConfigView,
}

/// The counter value after one more dispatched command: one more than `c`,
/// saturating at the largest representable count.
pub open spec fn bump(c: u64) -> u64 {
    if c < u64::MAX {
        (c + 1) as u64
    } else {
        c
    }
}

/// The shared runtime state: how many commands have been dispatched, the
/// active client handle, and the configuration it was derived from.
pub struct State {
    pub messages_total: u64,
    pub client: ClientHandle,
    pub config: Config,
}

impl View for State {
    type V = StateView;

    open spec fn view(&self) -> StateView {
        StateView { messages_total: self.messages_total, client: self.client@, config: self.config@ }
    }
}

impl State {
    /// Consistency of the (configuration, handle) pair: the handle is the one
    /// the factory derives from the configuration held beside it.
    pub open spec fn wf(&self) -> bool {
        self@.client == derived_client(self@.config)
    }

    /// A fresh state around `client`: counter at zero, empty configuration.
    /// The pair only becomes consistent once [`State::with_config`] installs
    /// the configuration `client` was derived from.
    pub fn new(client: ClientHandle) -> (r: State)
        ensures
            r@.messages_total == 0,
            r@.client == client@,
            r@.config.openai_key == Seq::<char>::empty(),
            r@.config.openai_url == Seq::<char>::empty(),
            r@.config.openai_model == Seq::<char>::empty(),
    {
        State { messages_total: 0, client, config: Config::default() }
    }

    /// Installs `config`, leaving counter and handle as they were.
    pub fn with_config(self, config: Config) -> (r: State)
        ensures
            r@.messages_total == self@.messages_total,
            r@.client == self@.client,
            r@.config == config@,
    {
        State { messages_total: self.messages_total, client: self.client, config }
    }

    /// Counts one more dispatched command.
    pub fn increment_counter(&mut self)
        ensures
            final(self)@.messages_total == bump(old(self)@.messages_total),
            final(self)@.client == old(self)@.client,
            final(self)@.config == old(self)@.config,
    {
        if self.messages_total < u64::MAX {
            self.messages_total = self.messages_total + 1;
        }
    }

    /// A consistent snapshot of the current (configuration, handle) pair.
    pub fn read_snapshot(&self) -> (r: (Config, ClientHandle))
        ensures
            r.0@ == self@.config,
            r.1@ == self@.client,
    {
        (self.config.clone(), self.client.clone())
    }

    /// Replaces the configuration's base URL and installs, together with it,
    /// the handle rebuilt from the updated configuration.
    pub fn replace_endpoint(&mut self, url: String)
        ensures
            final(self)@.messages_total == old(self)@.messages_total,
            final(self)@.config.openai_key == old(self)@.config.openai_key,
            final(self)@.config.openai_url == url@,
            final(self)@.config.openai_model == old(self)@.config.openai_model,
            final(self)@.client == derived_client(final(self)@.config),
            final(self).wf(),
    {
        self.config.openai_url = url;
        let openai_config = self.config.to_openai_config();
        self.client = ClientHandle::with_config(openai_config);
    }

    /// Replaces the configuration's model identifier and installs, together
    /// with it, the handle rebuilt from the updated configuration.
    pub fn replace_model(&mut self, model: String)
        ensures
            final(self)@.messages_total == old(self)@.messages_total,
            final(self)@.config.openai_key == old(self)@.config.openai_key,
            final(self)@.config.openai_url == old(self)@.config.openai_url,
            final(self)@.config.openai_model == model@,
            final(self)@.client == derived_client(final(self)@.config),
            final(self).wf(),
    {
        self.config.openai_model = model;
        let openai_config = self.config.to_openai_config();
        self.client = ClientHandle::with_config(openai_config);
    }
}

} // verus!
