//! Validation rules of the foreign-function boundary, and a model of the
//! process-wide lifecycle flag.
//!
//! The boundary in front of the verdict engine receives raw pointer/size
//! pairs from a host process.  The rules here decide, from the shape of those
//! inputs alone, whether a call may proceed; the host-facing layer tests its
//! pointers and hands the outcome in as plain values, and never dereferences
//! anything before these rules have accepted the call.

use vstd::prelude::*;

verus! {

/// Largest allocation size the plausibility check accepts, in bytes (1 GiB).
pub const MAX_ALLOC_BYTES: usize = 1073741824;

/// Decides whether a reported allocation is plausible.
///
/// An allocation is rejected when its pointer is absent, its size is zero, or
/// its size exceeds [`MAX_ALLOC_BYTES`].  This is a heuristic sanity check on
/// the caller's report, not an audit of the allocator; it dereferences
/// nothing.  Returns 1 for accepted, 0 for rejected.
pub fn validate_unity_alloc(ptr_is_null: bool, size: usize) -> (r: i32)
    ensures
        r == (if !ptr_is_null && size > 0 && size <= MAX_ALLOC_BYTES {
            1i32
        } else {
            0i32
        }),
{
    if ptr_is_null {
        return 0;
    }
    if size == 0 {
        return 0;
    }
    if size > MAX_ALLOC_BYTES {
        return 0;
    }
    1
}

/// Decides whether a verdict computation may proceed.
///
/// Every required location — the state snapshot, the rigor parameters and
/// the result slot — must be present before anything is read or written; an
/// absent obstacle list is not an error, the scan then simply covers no
/// obstacles.  On rejection the boundary performs no computation and no
/// allocation.
pub fn validate_verdict_inputs(
    state_is_null: bool,
    params_is_null: bool,
    result_is_null: bool,
) -> (r: bool)
    ensures
        r == (!state_is_null && !params_is_null && !result_is_null),
{
    !state_is_null && !params_is_null && !result_is_null
}

/// Decides whether an uncertainty estimation may proceed.
///
/// The sample buffer and the output slot must be present and the sample
/// sequence non-empty; the estimator's mean is undefined over zero samples.
pub fn validate_uncertainty_inputs(
    samples_is_null: bool,
    sample_count: usize,
    out_sigma_is_null: bool,
) -> (r: bool)
    ensures
        r == (!samples_is_null && !out_sigma_is_null && sample_count > 0),
{
    !samples_is_null && !out_sigma_is_null && sample_count > 0
}

/// Model of the process-wide initialization flag.
///
/// The flag is set once at process start and read by the robustness query;
/// it gates nothing else, and in particular is no safety guard for the
/// verdict engine.  The host-facing layer keeps the one shared instance
/// behind an atomic with release stores and acquire loads, so that a set
/// flag is visible to every thread that queries afterwards; the transitions
/// themselves are the ones below.
pub struct CoreState {
    /// Whether initialization has completed.
    pub initialized: bool,
}

impl CoreState {
    /// The flag a process starts with: not yet initialized.
    pub fn new() -> (s: Self)
        ensures
            !s.initialized,
    {
        CoreState { initialized: false }
    }

    /// Initializes the core.  Always succeeds and returns 1.
    pub fn rust_core_init(&mut self) -> (r: i32)
        ensures
            final(self).initialized,
            r == 1i32,
    {
        self.initialized = true;
        1
    }

    /// Robustness query: 1 exactly when initialization has completed.
    pub fn check_system_robustness(&self) -> (r: i32)
        ensures
            r == (if self.initialized {
                1i32
            } else {
                0i32
            }),
    {
        if self.initialized {
            1
        } else {
            0
        }
    }
}

} // verus!
