//! Traits that connect guards to the scope driver.
//!
//! These traits are used in public signatures, but their methods are meant to
//! be called by the [`crate::scope`] driver: `call` and `call_all` are the
//! finalization passes that the driver runs after the scope body. Their
//! contracts say exactly what a pass does, so a caller that runs one early
//! can only do what the contract admits: empty the slot and append its
//! pending events to the log.

use vstd::prelude::*;

use crate::LocalScopeGuard;
use crate::ScopeEndHandler;

verus! {

/// The driver-facing half of a guard: construction and the finalization pass.
pub trait ScopeGuardPriv<E>: Sized {
    /// The events that a finalization pass would append to the log now:
    /// the events of the held handler, or the empty sequence for a guard
    /// whose slot is empty or that has no slot at all.
    spec fn pending(&self) -> Seq<E>;

    /// Whether this guard discards assignments (true only for the
    /// whole-program guard, which has no handler slot).
    spec fn discards(&self) -> bool;

    /// Constructs a guard with nothing pending.
    fn new() -> (g: Self)
        ensures
            g.pending() == Seq::<E>::empty(),
    ;

    /// Runs the finalization pass once: appends the pending events to `log`
    /// and empties the slot.
    ///
    /// Since the slot is left empty, a second pass is a no-op unless a new
    /// handler is set in between.
    fn call(&mut self, log: &mut Vec<E>)
        ensures
            final(log)@ == old(log)@ + old(self).pending(),
            final(self).pending() == Seq::<E>::empty(),
            final(self).discards() == old(self).discards(),
    ;
}

/// A collection of [`LocalScopeGuard`]s, finalized element-wise in a fixed
/// order.
///
/// Implemented for a single guard, and for tuples of collections up to
/// length six; arbitrarily many guards are obtained by nesting the tuples.
pub trait LocalScopeGuards<E>: Sized {
    /// The events that finalizing every guard in this collection would
    /// append to the log now, in construction order.
    spec fn pending_all(&self) -> Seq<E>;

    /// Constructs a collection of guards, each with nothing pending.
    fn new() -> (g: Self)
        ensures
            g.pending_all() == Seq::<E>::empty(),
    ;

    /// Finalizes every guard in this collection, in construction order.
    fn call_all(&mut self, log: &mut Vec<E>)
        ensures
            final(log)@ == old(log)@ + old(self).pending_all(),
            final(self).pending_all() == Seq::<E>::empty(),
    ;
}

impl<E, H: ScopeEndHandler<E>> LocalScopeGuards<E> for LocalScopeGuard<H> {
    open spec fn pending_all(&self) -> Seq<E> {
        self.pending()
    }

    fn new() -> (g: Self) {
        ScopeGuardPriv::new()
    }

    fn call_all(&mut self, log: &mut Vec<E>) {
        self.call(log)
    }
}

impl<E> LocalScopeGuards<E> for () {
    open spec fn pending_all(&self) -> Seq<E> {
        Seq::empty()
    }

    fn new() -> (g: Self) {
    }

    fn call_all(&mut self, log: &mut Vec<E>) {
        proof {
            assert(log@ =~= log@ + self.pending_all());
        }
    }
}

impl<E, T1: LocalScopeGuards<E>> LocalScopeGuards<E> for (T1,) {
    open spec fn pending_all(&self) -> Seq<E> {
        self.0.pending_all()
    }

    fn new() -> (g: Self) {
        (T1::new(),)
    }

    fn call_all(&mut self, log: &mut Vec<E>) {
        self.0.call_all(log);
    }
}

impl<E, T1: LocalScopeGuards<E>, T2: LocalScopeGuards<E>> LocalScopeGuards<E> for (T1, T2) {
    open spec fn pending_all(&self) -> Seq<E> {
        self.0.pending_all() + self.1.pending_all()
    }

    fn new() -> (g: Self) {
        let g = (T1::new(), T2::new());
        proof {
            assert(g.pending_all() =~= Seq::<E>::empty());
        }
        g
    }

    fn call_all(&mut self, log: &mut Vec<E>) {
        self.0.call_all(log);
        self.1.call_all(log);
        proof {
            assert(log@ =~= old(log)@ + old(self).pending_all());
            assert(self.pending_all() =~= Seq::<E>::empty());
        }
    }
}

impl<E, T1: LocalScopeGuards<E>, T2: LocalScopeGuards<E>, T3: LocalScopeGuards<E>> LocalScopeGuards<E> for (T1, T2, T3) {
    open spec fn pending_all(&self) -> Seq<E> {
        self.0.pending_all() + self.1.pending_all() + self.2.pending_all()
    }

    fn new() -> (g: Self) {
        let g = (T1::new(), T2::new(), T3::new());
        proof {
            assert(g.pending_all() =~= Seq::<E>::empty());
        }
        g
    }

    fn call_all(&mut self, log: &mut Vec<E>) {
        self.0.call_all(log);
        self.1.call_all(log);
        self.2.call_all(log);
        proof {
            assert(log@ =~= old(log)@ + old(self).pending_all());
            assert(self.pending_all() =~= Seq::<E>::empty());
        }
    }
}

impl<E, T1: LocalScopeGuards<E>, T2: LocalScopeGuards<E>, T3: LocalScopeGuards<E>, T4: LocalScopeGuards<E>> LocalScopeGuards<E> for (T1, T2, T3, T4) {
    open spec fn pending_all(&self) -> Seq<E> {
        self.0.pending_all() + self.1.pending_all() + self.2.pending_all() + self.3.pending_all()
    }

    fn new() -> (g: Self) {
        let g = (T1::new(), T2::new(), T3::new(), T4::new());
        proof {
            assert(g.pending_all() =~= Seq::<E>::empty());
        }
        g
    }

    fn call_all(&mut self, log: &mut Vec<E>) {
        self.0.call_all(log);
        self.1.call_all(log);
        self.2.call_all(log);
        self.3.call_all(log);
        proof {
            assert(log@ =~= old(log)@ + old(self).pending_all());
            assert(self.pending_all() =~= Seq::<E>::empty());
        }
    }
}

impl<E, T1: LocalScopeGuards<E>, T2: LocalScopeGuards<E>, T3: LocalScopeGuards<E>, T4: LocalScopeGuards<E>, T5: LocalScopeGuards<E>> LocalScopeGuards<E> for (T1, T2, T3, T4, T5) {
    open spec fn pending_all(&self) -> Seq<E> {
        self.0.pending_all() + self.1.pending_all() + self.2.pending_all() + self.3.pending_all() + self.4.pending_all()
    }

    fn new() -> (g: Self) {
        let g = (T1::new(), T2::new(), T3::new(), T4::new(), T5::new());
        proof {
            assert(g.pending_all() =~= Seq::<E>::empty());
        }
        g
    }

    fn call_all(&mut self, log: &mut Vec<E>) {
        self.0.call_all(log);
        self.1.call_all(log);
        self.2.call_all(log);
        self.3.call_all(log);
        self.4.call_all(log);
        proof {
            assert(log@ =~= old(log)@ + old(self).pending_all());
            assert(self.pending_all() =~= Seq::<E>::empty());
        }
    }
}

impl<E, T1: LocalScopeGuards<E>, T2: LocalScopeGuards<E>, T3: LocalScopeGuards<E>, T4: LocalScopeGuards<E>, T5: LocalScopeGuards<E>, T6: LocalScopeGuards<E>> LocalScopeGuards<E> for (T1, T2, T3, T4, T5, T6) {
    open spec fn pending_all(&self) -> Seq<E> {
        self.0.pending_all() + self.1.pending_all() + self.2.pending_all() + self.3.pending_all() + self.4.pending_all() + self.5.pending_all()
    }

    fn new() -> (g: Self) {
        let g = (T1::new(), T2::new(), T3::new(), T4::new(), T5::new(), T6::new());
        proof {
            assert(g.pending_all() =~= Seq::<E>::empty());
        }
        g
    }

    fn call_all(&mut self, log: &mut Vec<E>) {
        self.0.call_all(log);
        self.1.call_all(log);
        self.2.call_all(log);
        self.3.call_all(log);
        self.4.call_all(log);
        self.5.call_all(log);
        proof {
            assert(log@ =~= old(log)@ + old(self).pending_all());
            assert(self.pending_all() =~= Seq::<E>::empty());
        }
    }
}

} // verus!
