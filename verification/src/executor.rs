//! Choose your preferred executor to power a runtime.

use vstd::prelude::*;
use core::future::Future;

verus! {

/// `std::io::Error`, carried as an opaque value.
#[verifier::external_type_specification]
#[verifier::external_body]
pub struct ExIoError(std::io::Error);

/// What can be handed to an [`Executor`]: a value that may move to another
/// thread.
pub trait MaybeSend: Send {

}

impl<T> MaybeSend for T where T: Send {

}

/// A type that can run futures.
pub trait Executor: Sized {
    /// Creates a new [`Executor`].
    fn new() -> Result<Self, std::io::Error> where Self: Sized;

    /// Spawns a future in the [`Executor`].
    fn spawn(&self, future: impl Future<Output = ()> + MaybeSend + 'static);

    /// Runs the given closure inside the [`Executor`] and returns what the
    /// closure returns.
    ///
    /// Some executors require some global state to be in place before
    /// creating futures. This method can be leveraged to set up this global
    /// state, call a function, restore the state, and obtain the result of
    /// the call.
    fn enter<R>(&self, f: impl FnOnce() -> R) -> (result: R)
        requires
            f.requires(()),
        ensures
            f.ensures((), result),
    {
        f()
    }
}

} // verus!
