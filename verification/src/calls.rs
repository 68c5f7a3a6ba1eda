//! Calls that keep sight of what they called.

use vstd::prelude::*;

verus! {

/// Calls a function without arguments; what comes back is a result of it.
pub(crate) fn outcome<T, F: FnOnce() -> T>(f: F) -> (r: T)
    requires
        call_requires(f, ()),
    ensures
        call_ensures(f, (), r),
{
    f()
}

/// Calls a function on an argument; what comes back is a result of it on that argument.
pub(crate) fn outcome_on<A, T, F: FnOnce(A) -> T>(f: F, argument: A) -> (r: T)
    requires
        call_requires(f, (argument,)),
    ensures
        call_ensures(f, (argument,), r),
{
    f(argument)
}

} // verus!
