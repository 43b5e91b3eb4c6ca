//! Orchestration of remote filesystem mounts driven by external command-line
//! tools: a state-typed mount lifecycle, dependency checking against the
//! search path, shell command construction and secret redaction.
//!
//! A handle is either unmounted or mounted, and the state is part of its
//! type, so a mount can only be requested on an unmounted handle and an
//! unmount only on a mounted one. Dropping a mounted handle without
//! unmounting leaves the operating-system mount active: releasing it is the
//! caller's responsibility.

pub mod deps;
pub mod executor;
pub mod protocols;
pub mod redaction;
