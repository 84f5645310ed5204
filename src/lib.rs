//! A software cryptographic token and SSH agent whose keys live in a remote
//! key store: the key model and its encodings, the session store behind the
//! token interface, and the agent protocol codec.
use vstd::prelude::*;

pub mod agent;
pub mod asn1;
pub mod bridge;
pub mod identity;
pub mod key;
pub mod listing;
pub mod pkcs11;
pub mod state;
pub mod store;
pub mod token;
pub mod wire;

verus! {

} // verus!
