//! The guarantees the guard mechanism gives, stated and proved over its
//! specification-level model.
//!
//! At the specification level a guard is its sequence of *pending* events —
//! what a finalization pass would append to the log now — and the log is the
//! sequence of events already emitted. The two operations on that state are
//! exactly what the contracts of [`crate::ScopeGuard::set_handler`] and
//! [`crate::private::ScopeGuardPriv::call`] state: [`assigned`] replaces the
//! pending events outright, and [`finalized`] appends them to the log and
//! empties the slot. The proof functions here are the library's laws over
//! those operations.

use vstd::prelude::*;

use crate::ScopeEndHandler;
use crate::StaticScopeGuard;
use crate::private::ScopeGuardPriv;

verus! {

/// The guard state after a handler with events `handler` is assigned to a
/// guard with events `pending` still pending: a plain replacement. The
/// previous pending events are discarded, not invoked and not merged.
pub open spec fn assigned<E>(pending: Seq<E>, handler: Seq<E>) -> Seq<E> {
    handler
}

/// The guard and log state after one finalization pass over a guard with
/// events `pending` still pending: the pending events are appended to the
/// log and the slot is left empty.
pub open spec fn finalized<E>(pending: Seq<E>, log: Seq<E>) -> (Seq<E>, Seq<E>) {
    (Seq::empty(), log + pending)
}

/// The guard and log state after `n` finalization passes.
pub open spec fn finalized_times<E>(pending: Seq<E>, log: Seq<E>, n: nat) -> (Seq<E>, Seq<E>)
    decreases n,
{
    if n == 0 {
        (pending, log)
    } else {
        let (p, l) = finalized(pending, log);
        finalized_times(p, l, (n - 1) as nat)
    }
}

/// Single invocation: once a handler is assigned, any positive number of
/// finalization passes appends its events to the log exactly once — never
/// zero times, and never twice, however the scope's lifetime ends.
pub proof fn lemma_single_invocation<E>(pending: Seq<E>, log: Seq<E>, n: nat)
    requires
        1 <= n,
    ensures
        finalized_times(pending, log, n).0 == Seq::<E>::empty(),
        finalized_times(pending, log, n).1 == log + pending,
    decreases n,
{
    if n == 1 {
        reveal_with_fuel(finalized_times, 2);
        assert(finalized_times(pending, log, n).0 =~= Seq::<E>::empty());
    } else {
        lemma_single_invocation(Seq::<E>::empty(), log + pending, (n - 1) as nat);
        assert((log + pending) + Seq::<E>::empty() =~= log + pending);
    }
}

/// Replacement discards, not merges: assigning a new handler to an armed
/// guard and then finalizing runs only the newest handler; the replaced
/// handler's events never reach the log.
pub proof fn lemma_replacement_discards<E>(pending: Seq<E>, handler: Seq<E>, log: Seq<E>)
    ensures
        finalized(assigned(pending, handler), log).1 == log + handler,
{
}

/// Aggregate order: a collection of guards with pending events `p1` and
/// `p2`, in that construction order, finalizes as one guard whose pending
/// events are `p1 + p2` — every event of `p1` reaches the log strictly
/// before every event of `p2`, and finalizing the aggregate is the same as
/// finalizing its members element-wise in construction order. Nesting
/// aggregates therefore flattens into one construction-ordered sweep.
pub proof fn lemma_aggregate_order<E>(p1: Seq<E>, p2: Seq<E>, log: Seq<E>)
    ensures
        finalized(p1 + p2, log).1 == (log + p1) + p2,
        finalized(p1 + p2, log).1 == finalized(p2, finalized(p1, log).1).1,
{
    assert(log + (p1 + p2) =~= (log + p1) + p2);
}

/// Empty is safe: finalizing a guard that never received a handler leaves
/// the log unchanged and the slot empty — a no-op, not an error.
pub proof fn lemma_empty_finalize_is_noop<E>(log: Seq<E>)
    ensures
        finalized(Seq::<E>::empty(), log) == (Seq::<E>::empty(), log),
{
    assert(log + Seq::<E>::empty() =~= log);
}

/// Whole-program fast path: a guard for the whole-program scope discards
/// assignments and never has pending events, so assigning to it retains
/// nothing and finalizing it appends nothing to the log.
pub proof fn lemma_static_guard_is_noop<E, H: ScopeEndHandler<E>>(g: StaticScopeGuard<H>)
    ensures
        ScopeGuardPriv::<E>::pending(&g) == Seq::<E>::empty(),
        ScopeGuardPriv::<E>::discards(&g),
{
}

} // verus!
