//! The transport-selection abstraction: given a connection target and a TLS
//! selection, decide exactly how to connect — in plain text on which host
//! and port, or through which TLS provider — or fail with a typed error.
//!
//! Opening the socket and performing the handshake are the embedding
//! application's blocking I/O; the decision itself is this module's
//! [`plan`], and the one shared resource — the process-level cryptographic
//! backend — is installed through [`ConnectPlan::prepare`].

use vstd::prelude::*;

use crate::capability::Capabilities;
use crate::error::Error;

pub mod de;

verus! {

/// A connection target reduced to what the decision reads: an optional
/// scheme, an optional host, and an optional explicit port.
#[derive(Debug, Clone)]
pub struct Target {
    /// The scheme, e.g. `http` or `https`, when the target names one.
    pub scheme: Option<String>,
    /// The host to connect to, when the target names one.
    pub host: Option<String>,
    /// The explicit port, when the target names one.
    pub port: Option<u16>,
}

/// Whether a scheme asks for a secure connection: it ends in `s` or `S`.
pub open spec fn secure_scheme(s: Seq<char>) -> bool {
    s.len() > 0 && (s[s.len() - 1] == 's' || s[s.len() - 1] == 'S')
}

impl Target {
    /// Whether this target asks for a secure connection.
    pub open spec fn spec_secure(&self) -> bool {
        match self.scheme {
            Some(s) => secure_scheme(s@),
            None => false,
        }
    }

    /// The port to connect to: the explicit one when given, otherwise the
    /// scheme's default (80 for `http`, 443 for `https`), otherwise none.
    pub open spec fn spec_port(&self) -> Option<u16> {
        match self.port {
            Some(p) => Some(p),
            None => match self.scheme {
                Some(s) => if s@ == "http"@ {
                    Some(80u16)
                } else if s@ == "https"@ {
                    Some(443u16)
                } else {
                    None
                },
                None => None,
            },
        }
    }

    /// Whether this target asks for a secure connection.
    pub fn is_secure(&self) -> (r: bool)
        ensures
            r == self.spec_secure(),
    {
        match &self.scheme {
            None => false,
            Some(s) => {
                let sch = s.as_str();
                let n = sch.unicode_len();
                if n == 0 {
                    false
                } else {
                    let c = sch.get_char(n - 1);
                    c == 's' || c == 'S'
                }
            },
        }
    }

    /// The port to connect to, as [`Target::spec_port`] states.
    pub fn derived_port(&self) -> (r: Option<u16>)
        ensures
            r == self.spec_port(),
    {
        match self.port {
            Some(p) => Some(p),
            None => match &self.scheme {
                Some(s) => {
                    let http_scheme: String = "http".to_owned();
                    let https_scheme: String = "https".to_owned();
                    if s.eq(&http_scheme) {
                        Some(80u16)
                    } else if s.eq(&https_scheme) {
                        Some(443u16)
                    } else {
                        None
                    }
                },
                None => None,
            },
        }
    }
}

/// The TLS selection: no TLS, or one of the interchangeable providers.
///
/// Each provider variant is only admitted by [`de::Tls::try_into_tls`] when
/// its capability is present in the build.
#[derive(Clone, Copy, Debug, PartialEq, Eq, Structural)]
pub enum Tls {
    /// No TLS: only insecure targets can be connected.
    Plain,
    /// TLS through the platform's native TLS library.
    NativeTls,
    /// TLS through rustls backed by the aws-lc-rs cryptography provider.
    RustlsAws,
    /// TLS through rustls backed by the ring cryptography provider.
    RustlsRing,
}

impl Tls {
    /// Whether this selection only names providers present in the build.
    pub open spec fn valid_under(&self, caps: Capabilities) -> bool {
        match self {
            Tls::Plain => true,
            Tls::NativeTls => caps.native_tls,
            Tls::RustlsAws => caps.rustls_aws,
            Tls::RustlsRing => caps.rustls_ring,
        }
    }

    /// The build-time default selection: the first present provider in
    /// priority order, falling back to no TLS.
    pub open spec fn spec_default_for(caps: Capabilities) -> Tls {
        if caps.rustls_aws {
            Tls::RustlsAws
        } else if caps.rustls_ring {
            Tls::RustlsRing
        } else if caps.native_tls {
            Tls::NativeTls
        } else {
            Tls::Plain
        }
    }

    /// The default selection for a build: the first present provider wins,
    /// in the order aws-lc-rs rustls, ring rustls, native TLS; a build with
    /// no provider defaults to no TLS.
    pub fn default_for(caps: &Capabilities) -> (r: Tls)
        ensures
            r == Tls::spec_default_for(*caps),
            r.valid_under(*caps),
    {
        if caps.rustls_aws {
            Tls::RustlsAws
        } else if caps.rustls_ring {
            Tls::RustlsRing
        } else if caps.native_tls {
            Tls::NativeTls
        } else {
            Tls::Plain
        }
    }
}

impl Default for Tls {
    /// Absent any capability information, the default is no TLS.
    fn default() -> (r: Self)
        ensures
            r == Tls::Plain,
    {
        Tls::Plain
    }
}

/// Exactly how to connect: the decision [`plan`] draws from a target and a
/// TLS selection, ready for the application to execute.
#[derive(Debug, Clone, PartialEq, Eq)]
pub enum ConnectPlan {
    /// Open a plain byte-stream socket.
    Plain { host: String, port: u16 },
    /// Connect through the platform's native TLS library.
    NativeTls { host: String, port: u16 },
    /// Connect through rustls backed by aws-lc-rs.
    RustlsAws { host: String, port: u16 },
    /// Connect through rustls backed by ring.
    RustlsRing { host: String, port: u16 },
}

/// Exactly what [`plan`] decides, for every target and selection.
pub open spec fn spec_plan(t: Target, tls: Tls) -> Result<ConnectPlan, Error> {
    match t.host {
        None => Result::Err(Error::MissingHost),
        Some(h) => match t.spec_port() {
            None => Result::Err(Error::UnresolvablePort),
            Some(p) => if !t.spec_secure() {
                Result::Ok(ConnectPlan::Plain { host: h, port: p })
            } else {
                match tls {
                    Tls::Plain => Result::Err(Error::SecureTargetWithoutTls),
                    Tls::NativeTls => Result::Ok(ConnectPlan::NativeTls { host: h, port: p }),
                    Tls::RustlsAws => Result::Ok(ConnectPlan::RustlsAws { host: h, port: p }),
                    Tls::RustlsRing => Result::Ok(ConnectPlan::RustlsRing { host: h, port: p }),
                }
            },
        },
    }
}

/// Decides how to connect to the target.
///
/// The host must be present and a port derivable, else the matching typed
/// error comes back. An insecure target is connected in plain text whatever
/// the TLS selection says; a secure target is never downgraded — with no
/// provider selected it is refused.
pub fn plan(target: Target, tls: &Tls) -> (r: Result<ConnectPlan, Error>)
    ensures
        r == spec_plan(target, *tls),
{
    let secure = target.is_secure();
    let port = target.derived_port();
    match target.host {
        None => Err(Error::MissingHost),
        Some(host) => match port {
            None => Err(Error::UnresolvablePort),
            Some(port) => {
                if !secure {
                    Ok(ConnectPlan::Plain { host, port })
                } else {
                    match tls {
                        Tls::Plain => Err(Error::SecureTargetWithoutTls),
                        Tls::NativeTls => Ok(ConnectPlan::NativeTls { host, port }),
                        Tls::RustlsAws => Ok(ConnectPlan::RustlsAws { host, port }),
                        Tls::RustlsRing => Ok(ConnectPlan::RustlsRing { host, port }),
                    }
                }
            },
        },
    }
}

/// A secure target is never connected in plain text: with no TLS provider
/// selected the plan is the typed refusal, and no plain plan exists for it
/// under any selection.
pub proof fn lemma_secure_never_plain(t: Target, tls: Tls)
    requires
        t.spec_secure(),
    ensures
        (tls is Plain && t.host is Some && t.spec_port() is Some) ==> spec_plan(t, tls)
            == Result::<ConnectPlan, Error>::Err(Error::SecureTargetWithoutTls),
        !(spec_plan(t, tls) matches Result::Ok(ConnectPlan::Plain { .. })),
{
}

/// An insecure target is connected in plain text on its derived port, and
/// the TLS selection plays no part in the decision.
pub proof fn lemma_insecure_ignores_tls(t: Target, tls_a: Tls, tls_b: Tls)
    requires
        !t.spec_secure(),
    ensures
        spec_plan(t, tls_a) == spec_plan(t, tls_b),
        match (t.host, t.spec_port()) {
            (Some(h), Some(p)) => spec_plan(t, tls_a) == Result::<ConnectPlan, Error>::Ok(
                ConnectPlan::Plain { host: h, port: p },
            ),
            _ => true,
        },
{
}

/// Relies on rustls::crypto::ring::default_provider and
/// rustls::crypto::CryptoProvider::install_default: installs the ring
/// cryptography backend as the process-level default. Installation succeeds
/// at most once per process; a redundant call gets an error value back and
/// never panics, so installing is safe to repeat.
#[verifier::external_body]
pub fn install_ring_provider() -> (installed: bool) {
    rustls::crypto::ring::default_provider().install_default().is_ok()
}

impl ConnectPlan {
    /// Installs the cryptographic backend the plan's provider needs, if
    /// any; redundant installation is safe. Reports whether this call is
    /// the one that installed it.
    pub fn prepare(&self) -> (installed: bool)
        ensures
            installed ==> self is RustlsRing,
    {
        match self {
            ConnectPlan::RustlsRing { .. } => install_ring_provider(),
            _ => false,
        }
    }
}

} // verus!
