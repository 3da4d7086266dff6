//! A remote terminal client for RustDesk devices: the decisions of its
//! connection handshake, of its terminal session and of its key encoding.
pub mod crypto;
pub mod keys;
pub mod session;
pub mod terminal;
