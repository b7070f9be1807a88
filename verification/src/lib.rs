//! Client-side protocol engine for the Pubky identity and storage network.
//!
//! An identity is an Ed25519 key.  Its data lives on a homeserver that is
//! found by asking relays for the record published under the key.  The client
//! decides which relay to ask next, which request to send to the homeserver,
//! and what each response means for the caller and for the session store.
//! All network traffic is done by the caller: the functions here take what
//! the network answered and say what follows from it.

pub mod auth;
pub mod bytes;
pub mod client;
pub mod common;
pub mod error;
pub mod homeserver;
pub mod keys;
pub mod laws;
pub mod resolver;
pub mod session_store;
pub mod shell;
pub mod transport;
