//! The serialization-side form of a secret: the same tagged kinds, with the
//! raw credential deliberately exposed as plain text so that it can be
//! written back to configuration.

use vstd::prelude::*;

use crate::secret::{CmdSpec, KeyringRef};

verus! {

/// A secret as it is written back to configuration, tagged by kind.
pub enum Secret {
    /// The exposed plaintext of an in-memory credential.
    Raw(String),
    /// An external command description.
    Command(CmdSpec),
    /// A credential-store reference.
    Keyring(KeyringRef),
}

impl super::Secret {
    /// Turns the secret into its serialization form, exposing the raw
    /// plaintext and keeping the other kinds as they are.
    pub fn into_wire(self) -> (w: Secret)
        ensures
            match self {
                super::Secret::Raw(v) => w matches Secret::Raw(x) && x@ == v@,
                super::Secret::Command(c) => w == Secret::Command(c),
                super::Secret::Keyring(k) => w == Secret::Keyring(k),
            },
    {
        match self {
            super::Secret::Raw(v) => Secret::Raw(v.into_string()),
            super::Secret::Command(c) => Secret::Command(c),
            super::Secret::Keyring(k) => Secret::Keyring(k),
        }
    }
}

} // verus!
