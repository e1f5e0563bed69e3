//! Launch guard: single-flight "has a launch been initialized" state.

use vstd::prelude::*;

verus! {

/// Whether a launch has been initialized during this process lifetime.
/// The shell owns one value of this, behind its own mutual exclusion, and
/// never resets it.
pub struct NTState(pub bool);

impl NTState {
    /// Fresh guard state: no launch initialized yet.
    pub fn new() -> (s: Self)
        ensures
            !s.0,
    {
        NTState(false)
    }
}

/// One initialize step over the guard flag: the pair of (value reported to
/// the caller, value stored afterwards).
pub open spec fn spec_initialize(s: bool) -> (bool, bool) {
    (s, true)
}

/// Atomically (under the caller's lock) reads the guard flag, sets it, and
/// returns the previous value: `false` exactly on the first call.
pub fn initialize_nt(state: &mut NTState) -> (prev: bool)
    ensures
        prev == old(state).0,
        final(state).0,
        (prev, final(state).0) == spec_initialize(old(state).0),
{
    let prev = state.0;
    state.0 = true;
    prev
}

/// Guard semantics: a fresh guard reports no prior launch, and once any
/// initialize step has run, every later step reports a prior launch.
pub proof fn lemma_guard_semantics(s: bool)
    ensures
        spec_initialize(false).0 == false,
        spec_initialize(spec_initialize(s).1).0 == true,
{
}

} // verus!
