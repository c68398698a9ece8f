//! Connection configuration and the client-handle factory.
//!
//! A `Config` holds the three opaque strings needed to reach the downstream
//! chat-completion API. A `ClientHandle` is the ready-to-use client derived
//! from a `Config`; at this layer it is modelled by the client configuration
//! it was built from, so that every handle carries an exact record of its
//! source configuration and consistency of (configuration, handle) pairs is
//! a provable statement.

use vstd::prelude::*;
use vstd::string::StringExecFns;

verus! {

/// Spec-level image of a [`Config`]: the three connection strings.
#[verifier::ext_equal]
pub struct ConfigView {
    pub openai_key: Seq<char>,
    pub openai_url: Seq<char>,
    pub openai_model: Seq<char>,
}

/// The three parameters needed to reach the downstream chat API.
/// All fields are opaque strings; no format validation is performed here.
pub struct Config {
    pub openai_key: String,
    pub openai_url: String,
    pub openai_model: String,
}

impl View for Config {
    type V = ConfigView;

    open spec fn view(&self) -> ConfigView {
        ConfigView {
            openai_key: self.openai_key@,
            openai_url: self.openai_url@,
            openai_model: self.openai_model@,
        }
    }
}

impl Config {
    pub fn new(openai_key: String, openai_url: String, openai_model: String) -> (r: Config)
        ensures
            r@.openai_key == openai_key@,
            r@.openai_url == openai_url@,
            r@.openai_model == openai_model@,
    {
        Config { openai_key, openai_url, openai_model }
    }

    /// Derives the client configuration for this connection configuration.
    pub fn to_openai_config(&self) -> (r: ClientConfig)
        ensures
            r@ == derived_config(self@),
    {
        ClientConfig {
            api_key: self.openai_key.clone(),
            api_base: self.openai_url.clone(),
            org_id: String::from_str("the-continental"),
        }
    }

    pub fn openai_url(&self) -> (r: &String)
        ensures
            r@ == self@.openai_url,
    {
        &self.openai_url
    }

    pub fn openai_model(&self) -> (r: &String)
        ensures
            r@ == self@.openai_model,
    {
        &self.openai_model
    }
}

impl Clone for Config {
    fn clone(&self) -> (r: Self)
        ensures
            r@ == self@,
    {
        Config {
            openai_key: self.openai_key.clone(),
            openai_url: self.openai_url.clone(),
            openai_model: self.openai_model.clone(),
        }
    }
}

impl Default for Config {
    /// The empty configuration: all three strings empty.
    fn default() -> (r: Config)
        ensures
            r@.openai_key == Seq::<char>::empty(),
            r@.openai_url == Seq::<char>::empty(),
            r@.openai_model == Seq::<char>::empty(),
    {
        Config { openai_key: String::new(), openai_url: String::new(), openai_model: String::new() }
    }
}

/// Spec-level image of a [`ClientConfig`].
#[verifier::ext_equal]
pub struct ClientConfigView {
    pub api_key: Seq<char>,
    pub api_base: Seq<char>,
    pub org_id: Seq<char>,
}

/// The configuration a client handle is built from: key, base URL and a
/// fixed organisation identifier.
pub struct ClientConfig {
    pub api_key: String,
    pub api_base: String,
    pub org_id: String,
}

impl View for ClientConfig {
    type V = ClientConfigView;

    open spec fn view(&self) -> ClientConfigView {
        ClientConfigView {
            api_key: self.api_key@,
            api_base: self.api_base@,
            org_id: self.org_id@,
        }
    }
}

impl Clone for ClientConfig {
    fn clone(&self) -> (r: Self)
        ensures
            r@ == self@,
    {
        ClientConfig {
            api_key: self.api_key.clone(),
            api_base: self.api_base.clone(),
            org_id: self.org_id.clone(),
        }
    }
}

/// The client configuration that [`Config::to_openai_config`] derives from a
/// configuration: key and URL carried over, organisation identifier fixed.
pub open spec fn derived_config(c: ConfigView) -> ClientConfigView {
    ClientConfigView {
        api_key: c.openai_key,
        api_base: c.openai_url,
        org_id: "the-continental"@,
    }
}

/// Spec-level image of a [`ClientHandle`]: the client configuration it was
/// built from.
#[verifier::ext_equal]
pub struct ClientHandleView {
    pub config: ClientConfigView,
}

/// A ready-to-use client for the downstream chat API, bound to exactly one
/// client configuration at the moment of its creation. It is never updated
/// in place: configuration updates construct a fresh handle.
pub struct ClientHandle {
    pub config: ClientConfig,
}

impl View for ClientHandle {
    type V = ClientHandleView;

    open spec fn view(&self) -> ClientHandleView {
        ClientHandleView { config: self.config@ }
    }
}

impl ClientHandle {
    /// The factory: builds the handle bound to `config`. Pure and total.
    pub fn with_config(config: ClientConfig) -> (r: ClientHandle)
        ensures
            r@.config == config@,
    {
        ClientHandle { config }
    }

    pub fn api_key(&self) -> (r: &String)
        ensures
            r@ == self@.config.api_key,
    {
        &self.config.api_key
    }

    pub fn api_base(&self) -> (r: &String)
        ensures
            r@ == self@.config.api_base,
    {
        &self.config.api_base
    }

    pub fn org_id(&self) -> (r: &String)
        ensures
            r@ == self@.config.org_id,
    {
        &self.config.org_id
    }
}

impl Clone for ClientHandle {
    fn clone(&self) -> (r: Self)
        ensures
            r@ == self@,
    {
        ClientHandle { config: self.config.clone() }
    }
}

/// The handle the factory derives from connection configuration `c`.
pub open spec fn derived_client(c: ConfigView) -> ClientHandleView {
    ClientHandleView { config: derived_config(c) }
}

} // verus!
