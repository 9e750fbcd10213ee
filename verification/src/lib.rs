//! Configuration and result-decoding layer for a wavefront sequence
//! alignment engine.
//!
//! The engine itself — wavefront propagation, backtrace, band pruning — is
//! an external native collaborator reached through an opaque handle that
//! lives outside this crate. This crate holds the logic around it: the
//! closed configuration model (distance metric, heuristic strategy, memory
//! mode), the translation of that model onto the engine's attribute record,
//! and the decoding of engine-produced status codes, heuristic bitmasks and
//! alignment output.

pub mod attrs;
pub mod cigar;
pub mod config;
pub mod decode;

pub use attrs::AlignerAttributes;
pub use attrs::HeuristicAttributes;
pub use config::AlignmentScope;
pub use config::AlignmentSpan;
pub use config::AlignmentStatus;
pub use config::Distance;
pub use config::HeuristicStrategy;
pub use config::MemoryMode;
