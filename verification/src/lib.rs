//! Session-multiplexed synchronisation between a user interface and a
//! long-running backend worker.
//!
//! Commands that the interface issues are tagged with a session id and pushed
//! onto the backend's inbound queue. Every response that the backend emits is
//! mirrored to two places: the interface's own subscription, for live
//! updates, and an internal queue whose single consumer applies it to the
//! session registry. The registry is the authoritative record; what is proved
//! here is that it is updated exactly as the stream of responses prescribes.
pub mod actions;
pub mod app_state;
pub mod chat;
pub mod commands;
pub mod frontend_commands;
pub mod reconcile;
pub mod registry;
pub mod trusted;

pub use app_state::{
    AppCommandResponder, AppState, CommandResponseDef, CommandResponseWithUuid, Delivery,
    TauriCommandResponder,
};
pub use chat::{Chat, ChatMessage, ChatRole, ChatState, SessionId};
pub use commands::{Command, CommandEvent, Error};
pub use registry::Registry;
