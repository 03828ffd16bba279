//! The connection engine: protocol state, correlation of sent messages with
//! their acknowledgments, and the decisions of the reconnect loop.

pub mod channels;
pub mod decode;
pub mod ledger;
pub mod select;
pub mod session;
pub mod supervisor;
pub mod types;
pub mod wire;

pub use types::{Color, Config, Message, MissingCredential, Request, Response, User};
