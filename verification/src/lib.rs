//! Harvesting optional metadata from engine-aware objects.
//!
//! An engine-aware object may offer a level, a message, a debug hint and
//! artifacts, each behind a method of its own. The object comes from outside
//! and may lack any of them, answer `None`, fail, or answer with something
//! that does not decode: each of these gives `None` for that one kind and
//! disturbs nothing else.

pub mod artifacts;
pub mod capability;
pub mod digest;
pub mod engine_aware;
pub mod level;
pub mod outcome;
pub mod python;

pub use crate::artifacts::{Entry, Extraction, Fault};
pub use crate::capability::{Kind, Probed};
pub use crate::digest::{Digest, Fingerprint, FingerprintError, ResolveError};
pub use crate::engine_aware::{
    Artifacts, DebugHint, EngineAwareInformation, EngineAwareLevel, Message, Types,
};
pub use crate::level::Level;
pub use crate::python::Value;
