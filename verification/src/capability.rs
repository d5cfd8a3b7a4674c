//! Optional backends as explicit capability flags.
//!
//! A capability names an optional backend that is either present or absent
//! in a given build. The set of flags is fixed for the lifetime of a build:
//! it decides which secret and TLS variants are constructible and which
//! fail immediately with a typed error.

use vstd::prelude::*;

verus! {

/// One optional backend, identified by name.
#[derive(Clone, Copy, Debug, PartialEq, Eq, Structural)]
pub enum Capability {
    /// Resolving a secret by spawning an external command.
    ExternalCommand,
    /// Resolving a secret through the platform credential store.
    CredentialStore,
    /// TLS through the platform's native TLS library.
    NativeTls,
    /// TLS through rustls backed by the aws-lc-rs cryptography provider.
    RustlsAws,
    /// TLS through rustls backed by the ring cryptography provider.
    RustlsRing,
}

impl Capability {
    /// The stable name under which the capability is reported.
    pub open spec fn spec_name(self) -> Seq<char> {
        match self {
            Capability::ExternalCommand => "external-command"@,
            Capability::CredentialStore => "credential-store"@,
            Capability::NativeTls => "native-tls"@,
            Capability::RustlsAws => "rustls-aws"@,
            Capability::RustlsRing => "rustls-ring"@,
        }
    }

    /// The stable name under which the capability is reported.
    pub fn name(&self) -> (n: &'static str)
        ensures
            n@ == self.spec_name(),
    {
        match self {
            Capability::ExternalCommand => "external-command",
            Capability::CredentialStore => "credential-store",
            Capability::NativeTls => "native-tls",
            Capability::RustlsAws => "rustls-aws",
            Capability::RustlsRing => "rustls-ring",
        }
    }
}

/// The capability flags of one build: which optional backends are present.
///
/// A value of this type is constructed once by the embedding application
/// and never toggled afterwards.
#[derive(Clone, Copy, Debug, PartialEq, Eq, Structural)]
pub struct Capabilities {
    /// The external-command secret backend is present.
    pub external_command: bool,
    /// The credential-store secret backend is present.
    pub credential_store: bool,
    /// The native-tls transport provider is present.
    pub native_tls: bool,
    /// The rustls transport provider backed by aws-lc-rs is present.
    pub rustls_aws: bool,
    /// The rustls transport provider backed by ring is present.
    pub rustls_ring: bool,
}

impl Capabilities {
    /// Whether the given capability is present in this build.
    pub open spec fn spec_has(self, c: Capability) -> bool {
        match c {
            Capability::ExternalCommand => self.external_command,
            Capability::CredentialStore => self.credential_store,
            Capability::NativeTls => self.native_tls,
            Capability::RustlsAws => self.rustls_aws,
            Capability::RustlsRing => self.rustls_ring,
        }
    }

    /// Whether the given capability is present in this build.
    pub fn has(&self, c: Capability) -> (r: bool)
        ensures
            r == self.spec_has(c),
    {
        match c {
            Capability::ExternalCommand => self.external_command,
            Capability::CredentialStore => self.credential_store,
            Capability::NativeTls => self.native_tls,
            Capability::RustlsAws => self.rustls_aws,
            Capability::RustlsRing => self.rustls_ring,
        }
    }

    /// A build with every optional backend absent.
    pub fn none() -> (r: Self)
        ensures
            !r.external_command,
            !r.credential_store,
            !r.native_tls,
            !r.rustls_aws,
            !r.rustls_ring,
    {
        Capabilities {
            external_command: false,
            credential_store: false,
            native_tls: false,
            rustls_aws: false,
            rustls_ring: false,
        }
    }
}

impl Default for Capabilities {
    /// The default capability set is the empty one.
    fn default() -> (r: Self)
        ensures
            r == (Capabilities {
                external_command: false,
                credential_store: false,
                native_tls: false,
                rustls_aws: false,
                rustls_ring: false,
            }),
    {
        Capabilities::none()
    }
}

} // verus!
