//! The deserialization-side form of a TLS selection: tagged by provider
//! name, before capability gating.
//!
//! "No TLS" has no wire form: configuration either names a provider or
//! leaves the selection to the build default.

use vstd::prelude::*;

use crate::capability::{Capabilities, Capability};
use crate::error::Error;

verus! {

/// A TLS selection as configuration delivers it, tagged by provider name.
#[derive(Clone, Copy, Debug, PartialEq, Eq, Structural)]
pub enum Tls {
    /// The platform's native TLS library.
    NativeTls,
    /// rustls backed by the aws-lc-rs cryptography provider.
    RustlsAws,
    /// rustls backed by the ring cryptography provider.
    RustlsRing,
}

/// What capability gating makes of a wire-form selection: the matching
/// provider when present in the build, the capability failure otherwise.
pub open spec fn spec_gate(parts: Tls, caps: Capabilities) -> Result<super::Tls, Error> {
    match parts {
        Tls::NativeTls => if caps.native_tls {
            Result::Ok(super::Tls::NativeTls)
        } else {
            Result::Err(Error::CapabilityUnavailable(Capability::NativeTls))
        },
        Tls::RustlsAws => if caps.rustls_aws {
            Result::Ok(super::Tls::RustlsAws)
        } else {
            Result::Err(Error::CapabilityUnavailable(Capability::RustlsAws))
        },
        Tls::RustlsRing => if caps.rustls_ring {
            Result::Ok(super::Tls::RustlsRing)
        } else {
            Result::Err(Error::CapabilityUnavailable(Capability::RustlsRing))
        },
    }
}

impl Tls {
    /// Applies capability gating, turning the wire form into a usable
    /// selection or the capability failure [`spec_gate`] states.
    pub fn try_into_tls(self, caps: &Capabilities) -> (r: Result<super::Tls, Error>)
        ensures
            r == spec_gate(self, *caps),
    {
        match self {
            Tls::NativeTls => {
                if caps.native_tls {
                    Ok(super::Tls::NativeTls)
                } else {
                    Err(Error::CapabilityUnavailable(Capability::NativeTls))
                }
            },
            Tls::RustlsAws => {
                if caps.rustls_aws {
                    Ok(super::Tls::RustlsAws)
                } else {
                    Err(Error::CapabilityUnavailable(Capability::RustlsAws))
                }
            },
            Tls::RustlsRing => {
                if caps.rustls_ring {
                    Ok(super::Tls::RustlsRing)
                } else {
                    Err(Error::CapabilityUnavailable(Capability::RustlsRing))
                }
            },
        }
    }
}

/// The wire form that carries a given provider selection; "no TLS" has
/// none.
pub open spec fn wire_of(tls: super::Tls) -> Tls
    recommends
        !(tls is Plain),
{
    match tls {
        super::Tls::Plain => arbitrary(),
        super::Tls::NativeTls => Tls::NativeTls,
        super::Tls::RustlsAws => Tls::RustlsAws,
        super::Tls::RustlsRing => Tls::RustlsRing,
    }
}

/// Round trip: within a capability set that admits a provider selection,
/// its wire form gates back to that same selection. "No TLS" is the one
/// selection without a wire form, so it is left out.
pub proof fn lemma_tls_round_trip(tls: super::Tls, caps: Capabilities)
    requires
        !(tls is Plain),
        tls.valid_under(caps),
    ensures
        spec_gate(wire_of(tls), caps) == Result::<super::Tls, Error>::Ok(tls),
{
}

} // verus!
