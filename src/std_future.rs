//! Legacy to modern: poll a `futures` 0.1 future under the `std` contract.
use vstd::prelude::*;

verus! {

/// The `futures` 0.1 readiness enum, as its source declares it.
#[verifier::external_type_specification]
pub struct ExAsync<T>(futures::Async<T>);

/// The `std` readiness enum, as its documentation declares it.
#[verifier::external_type_specification]
pub struct ExPoll<T>(core::task::Poll<T>);

/// The task container of `futures` 0.1, which gives a legacy future the
/// identity that notifications are keyed by.
#[verifier::external_type_specification]
#[verifier::external_body]
#[verifier::reject_recursive_types(T)]
pub struct ExSpawn<T: ?Sized>(futures::executor::Spawn<T>);

/// The `std` wake handle.
#[verifier::external_type_specification]
#[verifier::external_body]
pub struct ExWaker(core::task::Waker);

/// Relies on `futures::executor::spawn`: it moves the object into a fresh
/// task container and does not poll it.
pub assume_specification<T>[ futures::executor::spawn::<T> ](obj: T) -> futures::executor::Spawn<T>;

/// Relies on `Waker::wake_by_ref`: it asks the waker's scheduler to poll
/// again, without consuming the waker.
pub assume_specification[ core::task::Waker::wake_by_ref ](w: &core::task::Waker);

/// Relies on `Waker::clone`: the clone wakes the same task as the original.
pub assume_specification[ <core::task::Waker as core::clone::Clone>::clone ](w: &core::task::Waker) -> core::task::Waker;

/// Adapter providing the `std` future interface for a legacy future held in
/// a task container.
pub struct FutureAdapter<Inner>(pub Inner);

/// The id that every notification target of an adapter is bound to: each
/// adapter owns a single task, so one key suffices.
pub const NOTIFY_ID: usize = 0;

/// A legacy notification target built for one poll cycle: it owns a clone of
/// the `std` waker that was handed to that poll.
#[derive(Clone)]
pub struct WakerNotifier {
    waker: core::task::Waker,
}

impl WakerNotifier {
    /// Builds the target for the current poll cycle from the waker of that
    /// cycle. Each cycle gets a target of its own.
    pub fn new(waker: &core::task::Waker) -> (r: WakerNotifier) {
        WakerNotifier { waker: waker.clone() }
    }

    /// Forwards one legacy notification, whatever its id, to the `std` waker
    /// as one wake request. The waker stays usable: a target may fire again.
    pub fn notify(&self, _id: usize) {
        self.waker.wake_by_ref();
    }
}

/// The `std` outcome that a legacy outcome stands for: not ready becomes
/// pending, a value or an error becomes ready with that value or error.
pub open spec fn modern_of<T, E>(r: Result<futures::Async<T>, E>) -> core::task::Poll<Result<T, E>> {
    match r {
        Ok(futures::Async::NotReady) => core::task::Poll::Pending,
        Ok(futures::Async::Ready(v)) => core::task::Poll::Ready(Ok(v)),
        Err(e) => core::task::Poll::Ready(Err(e)),
    }
}

/// Translates the outcome of one legacy poll into the `std` outcome.
pub fn poll_outcome<T, E>(r: Result<futures::Async<T>, E>) -> (p: core::task::Poll<Result<T, E>>)
    ensures
        p == modern_of(r),
{
    match r {
        Ok(futures::Async::NotReady) => core::task::Poll::Pending,
        Ok(futures::Async::Ready(v)) => core::task::Poll::Ready(Ok(v)),
        Err(e) => core::task::Poll::Ready(Err(e)),
    }
}

} // verus!
