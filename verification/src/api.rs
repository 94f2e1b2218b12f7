//! Models the Euphoria chat API: field types, packet payloads and the
//! packet envelope.

pub mod account_cmds;
pub mod codec;
pub mod events;
pub mod packets;
pub mod room_cmds;
pub mod session_cmds;
pub mod types;
