//! Status codes and small shared types of the NGINX core.

use vstd::prelude::*;

verus! {

/// The handler result that tells NGINX the phase step succeeded.
pub const NGX_OK: isize = 0;

/// The handler result that tells NGINX the phase step failed.
pub const NGX_ERROR: isize = -1;

/// The address returned by a configuration callback that succeeded (`NGX_CONF_OK`, a null pointer).
pub const NGX_CONF_OK: usize = 0;

/// The address returned by a configuration callback that failed (`NGX_CONF_ERROR`, `(void *) -1`).
pub const NGX_CONF_ERROR: usize = usize::MAX;

/// A handler status code, as NGINX defines it.
#[derive(Clone, Copy, Debug, PartialEq, Eq, Structural)]
pub struct Status(pub isize);

/// An allocation from an NGINX pool failed.
#[derive(Clone, Copy, Debug, PartialEq, Eq, Structural)]
pub struct AllocError;

/// Merging a configuration with its parent failed.
#[derive(Clone, Copy, Debug, PartialEq, Eq, Structural)]
pub struct MergeConfigError;

/// Configuration that inherits unset values from the enclosing level.
pub trait Merge: Sized {
    /// Whether merging `prev` into `before` may give `after` with outcome `result`.
    spec fn merge_spec(
        before: Self,
        prev: Self,
        after: Self,
        result: Result<(), MergeConfigError>,
    ) -> bool;

    /// Fills the values of `self` that are unset from `prev`.
    fn merge(&mut self, prev: &Self) -> (r: Result<(), MergeConfigError>)
        ensures
            Self::merge_spec(*old(self), *prev, *final(self), r),
    ;
}

} // verus!
