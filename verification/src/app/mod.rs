//! Application state machine and message dispatching (Elm architecture).

pub mod message;
pub mod state;
pub mod laws;

pub use message::Message;
pub use state::{AppState, InputMode, Screen};
