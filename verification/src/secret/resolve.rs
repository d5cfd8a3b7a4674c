//! The resolution algorithm behind [`Secret::get`], written against the
//! suspension protocol: a small state machine whose one resumption either
//! settles immediately or asks the driver for exactly one blocking
//! operation.

use vstd::prelude::*;

use crate::capability::{Capabilities, Capability};
use crate::error::Error;
use crate::secret::text::{first_line, first_line_of, utf8_lossy, utf8_lossy_of};
use crate::secret::{CmdSpec, Secret, SecretValue};
use crate::suspend::{result_of, settled, IoError, IoOutcome, IoRequest, Step};

verus! {

/// Where a resolution stands between two resumptions.
#[derive(Clone, Copy)]
pub enum Phase<'a> {
    /// Not yet resumed; holds the source to resolve.
    Start(&'a Secret),
    /// A process spawn was requested; its outcome is awaited.
    AwaitCommand,
    /// A credential-store lookup was requested; its outcome is awaited.
    AwaitStore,
    /// Settled; the resolution is single-use and will not run again.
    Finished,
}

/// One resolution of one [`Secret`], resumable at most once per pending
/// request and consumed once settled.
pub struct Resolution<'a> {
    /// The capability flags of this build.
    pub caps: Capabilities,
    /// Where the resolution stands.
    pub state: Phase<'a>,
}

/// The standard-error bytes of a failed command, or its standard output
/// when standard error came back empty.
pub open spec fn command_failure_payload(out: crate::suspend::ProcessOutput) -> Seq<u8> {
    if out.stderr@.len() == 0 {
        out.stdout@
    } else {
        out.stderr@
    }
}

/// Exactly how a command outcome is interpreted: on exit code zero the
/// credential is the decoded first line of standard output; on a non-zero
/// exit the failure carries the decoded standard error (or standard
/// output when standard error came back empty); a runtime failure or a
/// mismatched outcome is an I/O error.
pub open spec fn command_step_result(
    outcome: Result<IoOutcome, IoError>,
    r: Result<SecretValue, Error>,
) -> bool {
    match outcome {
        Result::Ok(IoOutcome::Process(out)) => if out.code == 0 {
            r matches Ok(v) && v@ == utf8_lossy_of(first_line_of(out.stdout@))
        } else {
            r matches Err(Error::CommandFailed(m)) && m@ == utf8_lossy_of(
                command_failure_payload(out),
            )
        },
        Result::Ok(IoOutcome::StoreSecret(_)) => r matches Err(Error::Io(_)),
        Result::Err(io) => r matches Err(Error::Io(m)) && m@ == io.message@,
    }
}

/// Exactly how a credential-store outcome is interpreted: the stored secret
/// on success; a store-lookup failure carrying the cause otherwise; a
/// mismatched outcome is an I/O error.
pub open spec fn store_step_result(
    outcome: Result<IoOutcome, IoError>,
    r: Result<SecretValue, Error>,
) -> bool {
    match outcome {
        Result::Ok(IoOutcome::StoreSecret(s)) => r matches Ok(v) && v@ == s@,
        Result::Ok(IoOutcome::Process(_)) => r matches Err(Error::Io(_)),
        Result::Err(io) => r matches Err(Error::StoreLookupFailed(m)) && m@ == io.message@,
    }
}

impl<'a> Resolution<'a> {
    /// How many resumptions this resolution can still take before it is
    /// settled.
    pub open spec fn steps_left(&self) -> nat {
        match self.state {
            Phase::Start(_) => 2,
            Phase::AwaitCommand => 1,
            Phase::AwaitStore => 1,
            Phase::Finished => 0,
        }
    }

    /// Begins a resolution of the given source under the given build
    /// capabilities.
    pub fn start(secret: &'a Secret, caps: Capabilities) -> (r: Self)
        ensures
            r.caps == caps,
            r.state == Phase::Start(secret),
    {
        Resolution { caps, state: Phase::Start(secret) }
    }

    /// Resumes the resolution.
    ///
    /// The first resumption takes no input; a resumption answering a
    /// [`Step::NeedsIo`] takes the outcome of the requested operation.
    /// Every resumption is total: protocol misuse (a missing or mismatched
    /// outcome, or resuming a settled resolution) settles with an I/O
    /// error rather than panicking.
    pub fn resume(&mut self, input: Option<Result<IoOutcome, IoError>>) -> (step: Step<'a>)
        ensures
            final(self).caps == old(self).caps,
            final(self).steps_left() < old(self).steps_left() || (old(self).state is Finished
                && final(self).state is Finished),
            old(self).state matches Phase::Start(s) ==> match s {
                Secret::Raw(v) => {
                    &&& final(self).state is Finished
                    &&& step matches Step::Done(out) && out@ == v@
                },
                Secret::Command(c) => if old(self).caps.external_command {
                    &&& final(self).state is AwaitCommand
                    &&& step matches Step::NeedsIo(IoRequest::SpawnThenWait(c2)) && c2 == c
                } else {
                    &&& final(self).state is Finished
                    &&& step == Step::Failed(
                        Error::CapabilityUnavailable(Capability::ExternalCommand),
                    )
                },
                Secret::Keyring(k) => if old(self).caps.credential_store {
                    &&& final(self).state is AwaitStore
                    &&& step matches Step::NeedsIo(IoRequest::StoreLookup(k2)) && k2 == k
                } else {
                    &&& final(self).state is Finished
                    &&& step == Step::Failed(
                        Error::CapabilityUnavailable(Capability::CredentialStore),
                    )
                },
            },
            old(self).state is AwaitCommand ==> {
                &&& final(self).state is Finished
                &&& match input {
                    Some(outcome) => settled(step) && command_step_result(
                        outcome,
                        result_of(step),
                    ),
                    None => step matches Step::Failed(Error::Io(_)),
                }
            },
            old(self).state is AwaitStore ==> {
                &&& final(self).state is Finished
                &&& match input {
                    Some(outcome) => settled(step) && store_step_result(outcome, result_of(step)),
                    None => step matches Step::Failed(Error::Io(_)),
                }
            },
            old(self).state is Finished ==> {
                &&& final(self).state is Finished
                &&& step matches Step::Failed(Error::Io(_))
            },
    {
        let st = self.state;
        match st {
            Phase::Start(s) => match s {
                Secret::Raw(v) => {
                    self.state = Phase::Finished;
                    Step::Done(v.clone())
                },
                Secret::Command(c) => {
                    if self.caps.external_command {
                        self.state = Phase::AwaitCommand;
                        Step::NeedsIo(IoRequest::SpawnThenWait(c))
                    } else {
                        self.state = Phase::Finished;
                        Step::Failed(Error::CapabilityUnavailable(Capability::ExternalCommand))
                    }
                },
                Secret::Keyring(k) => {
                    if self.caps.credential_store {
                        self.state = Phase::AwaitStore;
                        Step::NeedsIo(IoRequest::StoreLookup(k))
                    } else {
                        self.state = Phase::Finished;
                        Step::Failed(Error::CapabilityUnavailable(Capability::CredentialStore))
                    }
                },
            },
            Phase::AwaitCommand => {
                self.state = Phase::Finished;
                match input {
                    None => Step::Failed(Error::Io("no I/O outcome supplied".to_owned())),
                    Some(Err(e)) => Step::Failed(Error::Io(e.message)),
                    Some(Ok(IoOutcome::Process(out))) => {
                        if out.code == 0 {
                            let line = first_line(&out.stdout);
                            Step::Done(SecretValue::new(utf8_lossy(&line)))
                        } else {
                            let payload = if out.stderr.len() == 0 {
                                out.stdout
                            } else {
                                out.stderr
                            };
                            Step::Failed(Error::CommandFailed(utf8_lossy(&payload)))
                        }
                    },
                    Some(Ok(IoOutcome::StoreSecret(_))) => Step::Failed(
                        Error::Io("unexpected I/O outcome".to_owned()),
                    ),
                }
            },
            Phase::AwaitStore => {
                self.state = Phase::Finished;
                match input {
                    None => Step::Failed(Error::Io("no I/O outcome supplied".to_owned())),
                    Some(Err(e)) => Step::Failed(Error::StoreLookupFailed(e.message)),
                    Some(Ok(IoOutcome::StoreSecret(s))) => Step::Done(SecretValue::new(s)),
                    Some(Ok(IoOutcome::Process(_))) => Step::Failed(
                        Error::Io("unexpected I/O outcome".to_owned()),
                    ),
                }
            },
            Phase::Finished => Step::Failed(Error::Io("resolution already settled".to_owned())),
        }
    }
}

} // verus!
