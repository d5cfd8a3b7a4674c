//! The typed failures of secret resolution and transport selection.

use vstd::prelude::*;
use vstd::string::StringExecFns;

use crate::capability::Capability;

verus! {

/// Why a secret could not be resolved or a connection plan could not be
/// drawn up.
///
/// Every failure is returned to the caller; nothing is retried internally
/// and no expected failure condition panics.
#[derive(Debug)]
pub enum Error {
    /// The requested backend is not present in this build.
    CapabilityUnavailable(Capability),
    /// The external command exited non-zero; the payload carries its
    /// standard error, or its standard output when standard error came
    /// back empty.
    CommandFailed(String),
    /// The credential-store entry is missing or inaccessible; the payload
    /// carries the underlying cause.
    StoreLookupFailed(String),
    /// The target has no host to connect to.
    MissingHost,
    /// The target names neither a port nor a scheme with a known default
    /// port.
    UnresolvablePort,
    /// The target asks for a secure connection but no TLS provider is
    /// selected; downgrading to plaintext is never done silently.
    SecureTargetWithoutTls,
    /// An underlying process or transport I/O failure, with its cause.
    Io(String),
}

impl Error {
    /// What [`Error::message`] returns.
    pub open spec fn spec_message(self) -> Seq<char> {
        match self {
            Error::CapabilityUnavailable(c) => "missing capability: "@ + c.spec_name(),
            Error::CommandFailed(cause) => "command failed: "@ + cause@,
            Error::StoreLookupFailed(cause) => "credential-store lookup failed: "@ + cause@,
            Error::MissingHost => "missing host in connection target"@,
            Error::UnresolvablePort => "cannot guess port from connection target"@,
            Error::SecureTargetWithoutTls => "target implies TLS but no TLS provider is configured"@,
            Error::Io(cause) => "I/O failure: "@ + cause@,
        }
    }

    /// A human-readable account of the failure: what went wrong and, where
    /// one was captured, the underlying cause.
    pub fn message(&self) -> (m: String)
        ensures
            m@ == self.spec_message(),
    {
        match self {
            Error::CapabilityUnavailable(c) => "missing capability: ".to_owned().concat(c.name()),
            Error::CommandFailed(cause) => "command failed: ".to_owned().concat(cause.as_str()),
            Error::StoreLookupFailed(cause) => "credential-store lookup failed: ".to_owned()
                .concat(cause.as_str()),
            Error::MissingHost => "missing host in connection target".to_owned(),
            Error::UnresolvablePort => "cannot guess port from connection target".to_owned(),
            Error::SecureTargetWithoutTls => "target implies TLS but no TLS provider is configured"
                .to_owned(),
            Error::Io(cause) => "I/O failure: ".to_owned().concat(cause.as_str()),
        }
    }
}

} // verus!
