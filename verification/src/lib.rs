//! Core of a command-driven chat relay: a shared configuration/client store,
//! a command dispatcher, and the chat request pipeline, all verified.

pub mod chat;
pub mod command;
pub mod config;
pub mod dispatch;
pub mod laws;
pub mod shared;
pub mod state;

pub use command::Command;
pub use config::Config;
pub use shared::SharedState;
pub use state::State;
