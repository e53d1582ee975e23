//! Safety-verdict core for a moving agent.
//!
//! The crate computes a bounded safety verdict from an agent state snapshot,
//! a list of nearby obstacles and tunable rigor parameters, and provides the
//! pure decision and validation rules behind a C-compatible boundary, as well
//! as the request parsing and response framing of the asset streaming service
//! that ships the same system's files.


/// Boundary-layer validation rules and the process lifecycle flag model.
pub mod boundary;
/// The verdict engine's breach classification and scan rules.
pub mod verdict;
/// Request parsing for the asset streaming service.
pub mod protocol;
/// Response framing for the asset streaming service.
pub mod response;
