//! Modern to legacy: poll a pinned `std` future under the `futures` 0.1
//! contract.
use vstd::prelude::*;

verus! {

/// The `std` pinning wrapper: the pointee is never moved again.
#[verifier::external_type_specification]
#[verifier::external_body]
#[verifier::reject_recursive_types(Ptr)]
pub struct ExPin<Ptr>(core::pin::Pin<Ptr>);

/// The `futures` 0.1 handle to a task, which can ask for that task to be
/// polled again.
#[verifier::external_type_specification]
#[verifier::external_body]
pub struct ExTask(futures::task::Task);

/// Relies on `futures::task::Task::notify`: it asks the task's executor to
/// poll the task again; it does not block.
pub assume_specification[ futures::task::Task::notify ](t: &futures::task::Task);

/// Relies on the derived `Task::clone`: the clone is another owned handle
/// to the same task.
pub assume_specification[ <futures::task::Task as core::clone::Clone>::clone ](t: &futures::task::Task) -> futures::task::Task;

/// Relies on `Box::pin`: it moves the value to the heap, where it stays.
#[verifier::external_body]
fn box_pin<T>(x: T) -> (r: core::pin::Pin<Box<T>>) {
    Box::pin(x)
}

/// Adapter providing the legacy future interface for a pinned `std` future.
pub struct FutureAdapter<Inner>(pub Inner);

impl<Inner> FutureAdapter<core::pin::Pin<Box<Inner>>> {
    /// Moves the future into stable heap storage and wraps it, without
    /// polling it.
    pub fn pin(inner: Inner) -> (r: Self) {
        FutureAdapter(box_pin(inner))
    }
}

/// The wake capability handed to a `std` future: it is bound to an owned
/// handle of the legacy task that polled the adapter, so it stays effective
/// after that poll has returned and from any thread.
#[derive(Clone)]
pub struct TaskWaker {
    task: futures::task::Task,
}

impl TaskWaker {
    /// The legacy task handle that this capability wakes.
    pub closed spec fn task(&self) -> futures::task::Task {
        self.task
    }

    /// Binds a capability to the legacy task handle.
    pub fn new(task: futures::task::Task) -> (r: TaskWaker)
        ensures
            r.task() == task,
    {
        TaskWaker { task }
    }

    /// Asks the legacy task to be polled again, keeping the capability.
    pub fn wake_by_ref(&self) {
        self.task.notify();
    }

    /// Asks the legacy task to be polled again and releases the capability.
    pub fn wake(self) {
        self.wake_by_ref();
    }
}

/// The legacy outcome that a `std` outcome stands for: pending becomes not
/// ready, ready with a value or an error becomes that value or error.
pub open spec fn legacy_of<T, E>(p: core::task::Poll<Result<T, E>>) -> Result<futures::Async<T>, E> {
    match p {
        core::task::Poll::Pending => Ok(futures::Async::NotReady),
        core::task::Poll::Ready(Ok(v)) => Ok(futures::Async::Ready(v)),
        core::task::Poll::Ready(Err(e)) => Err(e),
    }
}

/// Translates the outcome of one `std` poll into the legacy outcome.
pub fn poll_outcome<T, E>(p: core::task::Poll<Result<T, E>>) -> (r: Result<futures::Async<T>, E>)
    ensures
        r == legacy_of(p),
{
    match p {
        core::task::Poll::Pending => Ok(futures::Async::NotReady),
        core::task::Poll::Ready(Ok(v)) => Ok(futures::Async::Ready(v)),
        core::task::Poll::Ready(Err(e)) => Err(e),
    }
}

} // verus!
