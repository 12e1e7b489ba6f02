//! Adapters between the `futures` 0.1 future contract and `std::future::Future`.
//!
//! The outcome translation in each direction is proved exact, and the two
//! translations are proved to be inverse to each other.
use vstd::prelude::*;

pub mod std_future;
pub mod futures_future;
pub mod laws;

verus! {

/// Conversion of legacy futures into adapters with the `std` future interface.
pub trait IntoStdFuture: Sized {
    type Output;

    fn into_std_future(self) -> std_future::FutureAdapter<Self::Output>;
}

/// Conversion of pinned `std` futures into adapters with the legacy interface.
pub trait IntoFutures: Sized {
    type Output;

    fn into_futures(self) -> futures_future::FutureAdapter<Self::Output>;
}

/// Conversion of any `std` future into an adapter with the legacy interface.
///
/// Unlike `IntoFutures`, the future is first moved into pinned heap storage,
/// so it need not be pinned already.
pub trait BoxIntoFutures: Sized {
    type Output;

    fn box_into_futures(self) -> futures_future::FutureAdapter<Self::Output>;
}

impl<T> IntoStdFuture for T {
    type Output = futures::executor::Spawn<T>;

    /// Gives the legacy future a task of its own and wraps it; nothing is
    /// polled until the adapter is.
    fn into_std_future(self) -> std_future::FutureAdapter<futures::executor::Spawn<T>> {
        std_future::FutureAdapter(futures::executor::spawn(self))
    }
}

impl<P, F> IntoFutures for core::pin::Pin<P> where
    P: core::ops::Deref<Target = F>,
    F: core::future::Future,
 {
    type Output = core::pin::Pin<P>;

    /// Wraps the pinned future as it is.
    fn into_futures(self) -> (r: futures_future::FutureAdapter<core::pin::Pin<P>>)
        ensures
            r.0 == self,
    {
        futures_future::FutureAdapter(self)
    }
}

impl<F: core::future::Future> BoxIntoFutures for F {
    type Output = core::pin::Pin<Box<F>>;

    /// Pins the future on the heap, then wraps it.
    fn box_into_futures(self) -> futures_future::FutureAdapter<core::pin::Pin<Box<F>>> {
        futures_future::FutureAdapter::pin(self)
    }
}

} // verus!
