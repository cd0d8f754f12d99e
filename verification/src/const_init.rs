//! Constant-initializer capability.
//!
//! Global allocator state must be constructible without executing an
//! initialization routine at startup, which matters in environments with
//! no conventional process startup.  A conforming type therefore exposes
//! one canonical default value that such state can start from.

use vstd::prelude::*;

verus! {

/// Anything that can be initialized with a fixed, canonical default
/// value.  `spec_init` names the value; `const_init` returns it, with no
/// side effects and no failure mode.
pub trait ConstInit: Sized {
    /// The canonical default value for `Self`.
    spec fn spec_init() -> Self;

    /// Returns the canonical default value for `Self`.
    fn const_init() -> (r: Self)
        ensures
            r == Self::spec_init(),
    ;
}

} // verus!
