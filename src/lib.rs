pub mod config;
pub mod dialogue;
pub mod error;
pub mod json;
pub mod message;
pub mod models;
pub mod reply;
pub mod state;
pub mod stream;
pub mod text;
pub mod tools;
pub mod wire;

pub use config::{LlmConfiguration, LlmModel, LlmProvider};
pub use state::LlmState;
