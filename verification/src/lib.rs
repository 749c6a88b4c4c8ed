//! An agent turn engine: a conversational loop between a generation backend
//! and a set of callable tools.
//!
//! The crate is organised around three pieces: a content model for messages
//! ([`message`]), a stream translator that reassembles complete content
//! blocks from a backend's incremental delta protocol ([`translator`]), and
//! a turn-loop core that decides, round by round, whether to run tools and
//! what to append to the conversation history ([`agent`]).

pub mod agent;
pub mod error;
pub mod json;
pub mod mcp_client;
pub mod message;
pub mod model_provider;
pub mod state_provider;
pub mod translator;
pub mod tool;

pub use error::Error;
