//! Building blocks shared by command-line tools: a secret-resolution
//! abstraction that hides where a credential comes from (literal value,
//! external command, platform credential store) and a transport-selection
//! abstraction that hides which TLS provider (or none) a connection uses.
//!
//! Optional backends are modelled as explicit capability flags fixed per
//! build; selecting an absent backend yields a typed
//! [`error::Error::CapabilityUnavailable`] instead of a silent fallback.
//! Blocking I/O is kept out of the resolution logic through a resumable
//! suspension protocol: the algorithm describes the I/O it needs and the
//! caller's runtime performs it.

pub mod capability;
pub mod error;
pub mod secret;
pub mod stream;
pub mod suspend;
pub mod terminal;
