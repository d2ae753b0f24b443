//! Exercises in ranked polymorphism: a rank-1 predicate on string-like
//! values, a rank-2 function that takes such a predicate as an argument, and
//! a trait whose receiver lifetime is bound per call rather than by the
//! caller's scope.

use vstd::prelude::*;
use vstd::string::StringSliceAdditionalSpecFns;

verus! {

/// A rank-1 polymorphic check: true exactly when `v` is `len` bytes long.
pub fn check_len_rank1(v: &str, len: usize) -> (r: bool)
    ensures
        r == (v.spec_bytes().len() == len),
{
    v.as_bytes().len() == len
}

/// A rank-2 polymorphic function: everything it promises comes from the
/// contract of the function it is handed.
pub fn rank2<F: FnOnce(T, usize) -> Ret, T, Ret>(f: F, v: T, len: usize) -> (r: Ret)
    requires
        call_requires(f, (v, len)),
    ensures
        call_ensures(f, (v, len), r),
{
    f(v, len)
}

/// A length check whose receiver is borrowed only for the duration of one
/// call.
pub trait WithLifetime<'a> {
    /// The length the check compares against.
    spec fn model_len(&'a self) -> nat;

    /// True exactly when the receiver is `len` long.
    fn check_len(&'a self, len: usize) -> (r: bool)
        ensures
            r == (self.model_len() == len),
    ;
}

impl<'a> WithLifetime<'a> for &str {
    /// For a string slice, the length in bytes, as the rank-1 check counts.
    open spec fn model_len(&'a self) -> nat {
        self.spec_bytes().len()
    }

    fn check_len(&'a self, len: usize) -> (r: bool) {
        check_len_rank1(self, len)
    }
}

/// Calls the length check on a value moved into this function, so the
/// borrow's lifetime is one the caller's scope cannot name.
pub fn call_with_lifetime<T>(v: T, len: usize) -> (r: bool) where for<'a> T: WithLifetime<'a>
    ensures
        r == (v.model_len() == len),
{
    v.check_len(len)
}

} // verus!

