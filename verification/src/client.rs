//! The client layer: one supervised connection to one room.

pub mod conn;
pub mod multi;
pub mod single;
pub mod state;
