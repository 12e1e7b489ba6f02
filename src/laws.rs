//! What holds of the two translations together and of whole runs of polls.
use vstd::prelude::*;

use crate::futures_future::legacy_of;
use crate::std_future::modern_of;

verus! {

/// A legacy future whose successive polls give `s` resolves to `v` on poll
/// number `n`: the first `n - 1` polls are not ready and poll `n` is ready
/// with `v`.
pub open spec fn legacy_resolves_at<T, E>(s: Seq<Result<futures::Async<T>, E>>, n: nat, v: T) -> bool {
    &&& 1 <= n <= s.len()
    &&& forall|i: int| 0 <= i < n - 1 ==> s[i] == Ok::<futures::Async<T>, E>(futures::Async::NotReady)
    &&& s[n - 1] == Ok::<futures::Async<T>, E>(futures::Async::Ready(v))
}

/// A `std` future whose successive polls give `s` resolves to `v` on poll
/// number `n`: the first `n - 1` polls are pending and poll `n` is ready
/// with `Ok(v)`.
pub open spec fn modern_resolves_at<T, E>(s: Seq<core::task::Poll<Result<T, E>>>, n: nat, v: T) -> bool {
    &&& 1 <= n <= s.len()
    &&& forall|i: int| 0 <= i < n - 1 ==> s[i] == core::task::Poll::<Result<T, E>>::Pending
    &&& s[n - 1] == core::task::Poll::<Result<T, E>>::Ready(Ok(v))
}

/// The outcomes that a legacy to modern adapter reports, one for each poll of
/// the wrapped legacy future that gave `s`.
pub open spec fn modern_run<T, E>(s: Seq<Result<futures::Async<T>, E>>) -> Seq<core::task::Poll<Result<T, E>>> {
    s.map_values(|r: Result<futures::Async<T>, E>| modern_of(r))
}

/// The outcomes that a modern to legacy adapter reports, one for each poll of
/// the wrapped `std` future that gave `s`.
pub open spec fn legacy_run<T, E>(s: Seq<core::task::Poll<Result<T, E>>>) -> Seq<Result<futures::Async<T>, E>> {
    s.map_values(|p: core::task::Poll<Result<T, E>>| legacy_of(p))
}

/// A legacy future that resolves to `v` on its `n`-th poll, wrapped in the
/// legacy to modern adapter, makes the adapter resolve to `v` on its `n`-th
/// poll, pending on each poll before.
pub proof fn lemma_legacy_adapter_resolves<T, E>(s: Seq<Result<futures::Async<T>, E>>, n: nat, v: T)
    requires
        legacy_resolves_at(s, n, v),
    ensures
        modern_resolves_at(modern_run(s), n, v),
{
}

/// A `std` future that resolves to `v` on its `n`-th poll, wrapped in the
/// modern to legacy adapter, makes the adapter resolve to `v` on its `n`-th
/// poll, not ready on each poll before.
pub proof fn lemma_modern_adapter_resolves<T, E>(s: Seq<core::task::Poll<Result<T, E>>>, n: nat, v: T)
    requires
        modern_resolves_at(s, n, v),
    ensures
        legacy_resolves_at(legacy_run(s), n, v),
{
}

/// Translating a `std` outcome to the legacy contract and back gives the
/// same outcome.
pub proof fn lemma_modern_round_trip<T, E>(p: core::task::Poll<Result<T, E>>)
    ensures
        modern_of(legacy_of(p)) == p,
{
}

/// Translating a legacy outcome to the `std` contract and back gives the
/// same outcome.
pub proof fn lemma_legacy_round_trip<T, E>(r: Result<futures::Async<T>, E>)
    ensures
        legacy_of(modern_of(r)) == r,
{
}

/// Wrapping a `std` future for the legacy contract and that adapter again for
/// the `std` contract reports, poll for poll, the outcomes of the `std`
/// future itself.
pub proof fn lemma_round_trip_run<T, E>(s: Seq<core::task::Poll<Result<T, E>>>)
    ensures
        modern_run(legacy_run(s)) == s,
{
    assert(modern_run(legacy_run(s)) =~= s);
}

} // verus!
