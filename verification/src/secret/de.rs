//! The deserialization-side form of a secret: tagged by kind, before
//! capability gating.
//!
//! Configuration deserialization produces this form; turning it into a
//! [`super::Secret`] checks that the named backend is present in the build,
//! so that an absent backend is a typed error at construction time rather
//! than a failure discovered during resolution.

use vstd::prelude::*;

use crate::capability::{Capabilities, Capability};
use crate::error::Error;
use crate::secret::{CmdSpec, KeyringRef, SecretValue};

verus! {

/// A secret as configuration delivers it, tagged by kind.
pub enum Secret {
    /// An in-memory credential.
    Raw(SecretValue),
    /// An external command description.
    Command(CmdSpec),
    /// A credential-store reference.
    Keyring(KeyringRef),
}

/// What capability gating makes of a wire-form secret: the same variant
/// when its backend is present, the matching capability failure otherwise.
pub open spec fn spec_gate(parts: Secret, caps: Capabilities) -> Result<super::Secret, Error> {
    match parts {
        Secret::Raw(v) => Result::Ok(super::Secret::Raw(v)),
        Secret::Command(c) => if caps.external_command {
            Result::Ok(super::Secret::Command(c))
        } else {
            Result::Err(Error::CapabilityUnavailable(Capability::ExternalCommand))
        },
        Secret::Keyring(k) => if caps.credential_store {
            Result::Ok(super::Secret::Keyring(k))
        } else {
            Result::Err(Error::CapabilityUnavailable(Capability::CredentialStore))
        },
    }
}

impl Secret {
    /// Applies capability gating, turning the wire form into a usable
    /// secret or the capability failure [`spec_gate`] states.
    pub fn try_into_secret(self, caps: &Capabilities) -> (r: Result<super::Secret, Error>)
        ensures
            r == spec_gate(self, *caps),
    {
        match self {
            Secret::Raw(v) => Ok(super::Secret::Raw(v)),
            Secret::Command(c) => {
                if caps.external_command {
                    Ok(super::Secret::Command(c))
                } else {
                    Err(Error::CapabilityUnavailable(Capability::ExternalCommand))
                }
            },
            Secret::Keyring(k) => {
                if caps.credential_store {
                    Ok(super::Secret::Keyring(k))
                } else {
                    Err(Error::CapabilityUnavailable(Capability::CredentialStore))
                }
            },
        }
    }
}

/// The wire form that carries a given secret.
pub open spec fn wire_of(s: super::Secret) -> Secret {
    match s {
        super::Secret::Raw(v) => Secret::Raw(v),
        super::Secret::Command(c) => Secret::Command(c),
        super::Secret::Keyring(k) => Secret::Keyring(k),
    }
}

/// Round trip: within a capability set that admits a secret, its wire form
/// gates back to that same secret.
pub proof fn lemma_secret_round_trip(s: super::Secret, caps: Capabilities)
    requires
        s.valid_under(caps),
    ensures
        spec_gate(wire_of(s), caps) == Result::<super::Secret, Error>::Ok(s),
{
}

} // verus!
