//! A small fluent extension: apply a transformation to a value in place of
//! a temporary binding.

use vstd::prelude::*;

verus! {

/// Anything can be piped through a transformation.
pub trait AnyExts<F>: Sized {
    /// Applies `applier` to `self` and hands back its result.
    fn let_self(self, applier: F) -> (r: Self) where F: FnOnce(Self) -> Self
        requires
            applier.requires((self,)),
        ensures
            applier.ensures((self,), r),
    ;
}

impl<T, F: FnOnce(T) -> T> AnyExts<F> for T {
    fn let_self(self, applier: F) -> (r: Self) {
        applier(self)
    }
}

} // verus!
