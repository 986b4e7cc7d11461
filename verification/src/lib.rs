use vstd::prelude::*;

verus! {

use core::future::Future;
use core::time::Duration;
use vstd::future::FutureAdditionalSpecFns;

/// A type which represents a simple choice between two options.
///
/// Like `Result`, it carries exactly one of two payloads, but neither
/// variant means success or failure: `Left` only says that the first
/// option was taken, `Right` that the second was.
#[derive(Debug, PartialEq, Eq, Structural)]
pub enum Either<A, B> {
    Left(A),
    Right(B),
}

/// A `Left` value equals itself, and never equals a `Right` value, even
/// when the payload types coincide and the payloads are equal.
pub proof fn lemma_either_variants_distinct<T>(x: T)
    ensures
        Either::<T, T>::Left(x) == Either::<T, T>::Left(x),
        Either::<T, T>::Left(x) != Either::<T, T>::Right(x),
{
}

/// Decide one polling cycle of a race between two futures: `first` and
/// `second` say whether each contender produced a value this cycle.
///
/// Whichever side is ready wins, tagged by position; when both are ready
/// in the same cycle the first contender wins, deterministically. When
/// neither is ready there is no winner yet and the race goes on.
pub fn race_winner<A, B>(first: Option<A>, second: Option<B>) -> (winner: Option<
    Either<A, B>,
>)
    ensures
        first is Some ==> winner == Some(Either::<A, B>::Left(first->0)),
        first is None && second is Some ==> winner == Some(Either::<A, B>::Right(second->0)),
        first is None && second is None ==> winner is None,
{
    match first {
        Some(a) => Some(Either::Left(a)),
        None => match second {
            Some(b) => Some(Either::Right(b)),
            None => None,
        },
    }
}

/// Normalize the outcome of racing a future against a timer configured
/// with `duration`: a value the future produced in time is passed through
/// as `Ok`, and expiry is reported as `Err` carrying exactly the duration
/// that was configured, not the wall-clock time that actually elapsed.
pub fn timeout_outcome<T>(completed: Option<T>, duration: Duration) -> (outcome: Result<
    T,
    Duration,
>)
    ensures
        completed is Some ==> outcome == Ok::<T, Duration>(completed->0),
        completed is None ==> outcome == Err::<T, Duration>(duration),
{
    match completed {
        Some(value) => Ok(value),
        None => Err(duration),
    }
}

/// Declares `tokio::runtime::Runtime`, the execution context that
/// `block_on` builds and drives a future on; the value is opaque here and
/// only carried between the two calls that rely on it.
#[verifier::external_type_specification]
#[verifier::external_body]
pub struct ExRuntime(tokio::runtime::Runtime);

/// Relies on `tokio::runtime::Runtime::new`: builds a fresh multi-thread
/// runtime. Runtime construction fails only on resource exhaustion, and
/// then this aborts rather than returning an error, keeping the call site
/// free of an error channel for infrastructure failure.
#[verifier::external_body]
fn fresh_runtime() -> tokio::runtime::Runtime {
    tokio::runtime::Runtime::new().unwrap()
}

/// Relies on `tokio::runtime::Runtime::block_on`: blocks the current
/// thread on the runtime until the future completes, yielding its
/// resolved result.
#[verifier::external_body]
fn drive_to_completion<F: Future>(runtime: &tokio::runtime::Runtime, future: F) -> (output:
    F::Output)
    ensures
        output == future@,
{
    runtime.block_on(future)
}

/// Run a single future to completion on a bespoke runtime.
///
/// Every call builds a brand-new runtime instance and drops it on return:
/// no execution context is reused or pooled across calls, so nothing
/// spawned during one call survives into the next. If the runtime cannot
/// be constructed the process aborts.
pub fn block_on<F: Future>(future: F) -> (output: F::Output)
    ensures
        output == future@,
{
    let runtime = fresh_runtime();
    drive_to_completion(&runtime, future)
}

} // verus!
