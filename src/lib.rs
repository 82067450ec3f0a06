//! Real-time chat delivery: the session registry, conversations and their
//! messages, the socket frame grammar, and fan-out of chat and signal pushes;
//! beside them, the rules of team membership and invitations, the server's
//! settings, and the reading of credentials.

pub mod registry;
pub mod conversation;
mod minting;
pub mod frame;
pub mod dispatch;
pub mod ingest;
pub mod session;
pub mod outbox;
pub mod teams;
pub mod config;
pub mod auth;
