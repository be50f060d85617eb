//! A small chat relay: the wire protocol and its binary codec, the relay's
//! session bookkeeping and broadcast decisions, and the client-side protocol
//! state machine shared by every front end.

pub mod client;
pub mod history;
pub mod protocol;
pub mod registry;
pub mod relay;

pub use protocol::{ClientMessage, DecodeError, ServerMessage};
