//! The ICS-20 fungible token transfer module: the channel handshake checks and
//! the packet callbacks of the transfer application.

pub mod error;
pub mod text;
pub mod channel;
pub mod packet;
pub mod module;
pub mod laws;
