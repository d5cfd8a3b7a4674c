//! The suspension protocol: a resumable-computation contract that separates
//! "what blocking I/O must happen next" from "who performs it".
//!
//! A resolution algorithm never blocks by itself. Each resumption returns a
//! [`Step`]: either a final value or failure, or a request describing the
//! next blocking operation. The driver executes the request with whatever
//! I/O runtime it prefers — blocking system calls, a thread pool, or a test
//! double returning canned results — and resumes with the outcome.

use vstd::prelude::*;

use crate::error::Error;
use crate::secret::{CmdSpec, KeyringRef, SecretValue};

verus! {

/// A failure reported by the I/O runtime while executing a request.
#[derive(Debug)]
pub struct IoError {
    /// The underlying cause, as reported by the runtime.
    pub message: String,
}

/// What running an external process produced: its exit code and captured
/// output streams. An exit code of zero means success.
#[derive(Debug)]
pub struct ProcessOutput {
    /// The process exit code; zero on success.
    pub code: i32,
    /// The captured standard output bytes.
    pub stdout: Vec<u8>,
    /// The captured standard error bytes.
    pub stderr: Vec<u8>,
}

/// The successful outcome of one executed [`IoRequest`].
#[derive(Debug)]
pub enum IoOutcome {
    /// A spawned process ran to completion.
    Process(ProcessOutput),
    /// A credential-store lookup returned the stored secret.
    StoreSecret(String),
}

/// One blocking I/O operation that a resolution asks its driver to perform.
#[derive(Clone, Copy, Debug)]
pub enum IoRequest<'a> {
    /// Spawn the described process and wait for its exit code and output.
    SpawnThenWait(&'a CmdSpec),
    /// Look up the described entry in the platform credential store.
    StoreLookup(&'a KeyringRef),
}

/// What one resumption of a resolution produced.
pub enum Step<'a> {
    /// The resolution finished with this value.
    Done(SecretValue),
    /// The resolution finished with this failure.
    Failed(Error),
    /// The resolution needs the driver to perform this I/O before it can
    /// make progress.
    NeedsIo(IoRequest<'a>),
}

/// Whether a step ends the resolution.
pub open spec fn settled(step: Step) -> bool {
    step is Done || step is Failed
}

/// The result a settled step carries.
pub open spec fn result_of(step: Step) -> Result<SecretValue, Error>
    recommends
        settled(step),
{
    match step {
        Step::Done(v) => Ok(v),
        Step::Failed(e) => Err(e),
        Step::NeedsIo(_) => arbitrary(),
    }
}

/// The I/O execution collaborator: whoever drives a resolution supplies one.
///
/// Nothing is assumed of an implementation; the resolution states what holds
/// of every outcome it may hand back.
pub trait IoRuntime {
    /// Perform the requested blocking I/O and report its outcome.
    fn execute<'a>(&mut self, request: IoRequest<'a>) -> Result<IoOutcome, IoError>;
}

} // verus!
