//! An encrypted multi-identity keystore: secrets are sealed under a key
//! derived from a password or from the host's machine identifier, kept in a
//! versioned record, and unlocked only after the recovered secret is checked
//! against the identity it was stored under.
use vstd::prelude::*;

pub mod cipher;
pub mod error;
pub mod external;
pub mod kdf;
pub mod laws;
pub mod manager;
pub mod keystore;
pub mod record;

verus! {

} // verus!
