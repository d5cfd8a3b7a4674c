//! The secret-resolution abstraction: where a credential comes from is
//! hidden behind one closed set of sources and one `get` operation.

use vstd::prelude::*;

use crate::capability::{Capabilities, Capability};
use crate::error::Error;
use crate::secret::resolve::{command_step_result, store_step_result, Resolution};
use crate::suspend::{result_of, settled, IoError, IoOutcome, IoRuntime, Step};

pub mod de;
pub mod resolve;
pub mod ser;
pub mod text;

verus! {

/// A resolved plaintext credential.
///
/// The plaintext is never part of generic debug output; only the explicit
/// accessors [`SecretValue::expose`] and [`SecretValue::into_string`] reveal
/// it.
pub struct SecretValue {
    value: String,
}

impl View for SecretValue {
    type V = Seq<char>;

    closed spec fn view(&self) -> Seq<char> {
        self.value@
    }
}

impl SecretValue {
    /// Wraps a plaintext credential.
    pub fn new(value: String) -> (r: Self)
        ensures
            r@ == value@,
    {
        SecretValue { value }
    }

    /// Deliberately exposes the plaintext.
    pub fn expose(&self) -> (r: &str)
        ensures
            r@ == self@,
    {
        self.value.as_str()
    }

    /// Deliberately exposes the plaintext, consuming the wrapper.
    pub fn into_string(self) -> (r: String)
        ensures
            r@ == self@,
    {
        self.value
    }
}

impl Clone for SecretValue {
    fn clone(&self) -> (r: Self)
        ensures
            r@ == self@,
    {
        SecretValue { value: self.value.clone() }
    }
}

/// A description of an external process whose first line of standard
/// output, on success, is the credential.
#[derive(Debug)]
pub struct CmdSpec {
    /// Path to the program.
    pub program: String,
    /// Arguments passed to the program.
    pub args: Vec<String>,
    /// Environment variables set for the child process.
    pub envs: Vec<(String, String)>,
}

/// A logical (service, account) pair used to look a credential up in the
/// platform credential store.
#[derive(Debug)]
pub struct KeyringRef {
    /// The service name the entry is filed under.
    pub service: String,
    /// The account name within the service.
    pub account: String,
}

/// A credential source: exactly one variant is active per value, fixed at
/// construction. `get` never mutates it.
pub enum Secret {
    /// An in-memory credential.
    Raw(SecretValue),
    /// An external command to run; requires [`Capability::ExternalCommand`].
    Command(CmdSpec),
    /// A credential-store entry; requires [`Capability::CredentialStore`].
    Keyring(KeyringRef),
}

impl Secret {
    /// Whether this source only names backends present in the given build.
    pub open spec fn valid_under(&self, caps: Capabilities) -> bool {
        match self {
            Secret::Raw(_) => true,
            Secret::Command(_) => caps.external_command,
            Secret::Keyring(_) => caps.credential_store,
        }
    }

    /// Resolves the secret to its plaintext value, driving the suspension
    /// protocol with the given I/O runtime.
    ///
    /// A raw secret resolves to a copy of its value and performs no I/O. A
    /// command or credential-store secret first checks its capability and
    /// fails with [`Error::CapabilityUnavailable`] when the backend is
    /// absent; otherwise the runtime performs the one blocking operation
    /// and the outcome is interpreted exactly as [`get_post`] states.
    pub fn get<R: IoRuntime>(&self, caps: &Capabilities, runtime: &mut R) -> (r: Result<
        SecretValue,
        Error,
    >)
        ensures
            get_post(*self, *caps, r),
    {
        let mut resolution = Resolution::start(self, *caps);
        let mut step = resolution.resume(None);
        loop
            invariant
                resolution.caps == *caps,
                resolution.state is AwaitCommand ==> (self is Command && caps.external_command),
                resolution.state is AwaitStore ==> (self is Keyring && caps.credential_store),
                step is NeedsIo ==> (resolution.state is AwaitCommand || resolution.state
                    is AwaitStore),
                settled(step) ==> get_post(*self, *caps, result_of(step)),
            decreases resolution.steps_left(),
        {
            match step {
                Step::Done(v) => {
                    return Ok(v);
                },
                Step::Failed(e) => {
                    return Err(e);
                },
                Step::NeedsIo(request) => {
                    let outcome = runtime.execute(request);
                    let ghost o = outcome;
                    step = resolution.resume(Some(outcome));
                    proof {
                        assert(settled(step));
                        if self is Command {
                            assert(command_step_result(o, result_of(step)));
                        } else {
                            assert(store_step_result(o, result_of(step)));
                        }
                    }
                },
            }
        }
    }
}

/// Exactly what [`Secret::get`] returns, for every source and capability
/// set: the raw value unchanged, a typed capability failure, or the
/// interpretation of whatever outcome the runtime handed back.
pub open spec fn get_post(secret: Secret, caps: Capabilities, r: Result<SecretValue, Error>) -> bool {
    match secret {
        Secret::Raw(v) => r matches Ok(out) && out@ == v@,
        Secret::Command(_) => if caps.external_command {
            exists|outcome: Result<IoOutcome, IoError>| command_step_result(outcome, r)
        } else {
            r == Err::<SecretValue, Error>(Error::CapabilityUnavailable(Capability::ExternalCommand))
        },
        Secret::Keyring(_) => if caps.credential_store {
            exists|outcome: Result<IoOutcome, IoError>| store_step_result(outcome, r)
        } else {
            r == Err::<SecretValue, Error>(Error::CapabilityUnavailable(Capability::CredentialStore))
        },
    }
}

} // verus!
