//! Scoped finalizer guarantee: guards that run a registered one-shot handler
//! when their scope ends.
//!
//! A *handler* is a value that can be invoked exactly once, consuming itself;
//! its observable effect is modelled as the sequence of events it appends to
//! an explicit event log. A *guard* owns one optional handler slot; the
//! [`scope`] driver constructs guards, hands them to a caller-supplied body,
//! and finalizes every guard exactly once after the body completes, in
//! construction order.

use std::marker::PhantomData;

use vstd::prelude::*;

/// The library's laws, proved over the guards' specification-level model.
pub mod laws;
/// Contains traits that connect guards to the scope driver.
pub mod private;

verus! {

/// A type that can act as a scope-end handler.
///
/// `E` is the type of the events a handler appends to the log when invoked.
/// Invoking a handler consumes it, so a handler held in ordinary owned code
/// can run at most once.
pub trait ScopeEndHandler<E>: Sized {
    /// The events this handler appends to the log when invoked.
    spec fn emits(&self) -> Seq<E>;

    /// Returns a no-op handler.
    fn none() -> (h: Self)
        ensures
            h.emits() == Seq::<E>::empty(),
    ;

    /// Executes the handler, appending its events to `log`.
    fn call(self, log: &mut Vec<E>)
        ensures
            final(log)@ == old(log)@ + self.emits(),
    ;
}

impl<E> ScopeEndHandler<E> for Option<E> {
    open spec fn emits(&self) -> Seq<E> {
        match self {
            Some(e) => seq![*e],
            None => Seq::empty(),
        }
    }

    fn none() -> (h: Self) {
        None
    }

    fn call(self, log: &mut Vec<E>) {
        match self {
            Some(e) => {
                log.push(e);
                proof {
                    assert(log@ =~= old(log)@ + self.emits());
                }
            }
            None => {
                proof {
                    assert(log@ =~= old(log)@ + self.emits());
                }
            }
        }
    }
}

impl<E> ScopeEndHandler<E> for () {
    open spec fn emits(&self) -> Seq<E> {
        Seq::empty()
    }

    fn none() -> (h: Self) {
    }

    fn call(self, log: &mut Vec<E>) {
        proof {
            assert(log@ =~= log@ + self.emits());
        }
    }
}

impl<E, H1: ScopeEndHandler<E>> ScopeEndHandler<E> for (H1,) {
    open spec fn emits(&self) -> Seq<E> {
        self.0.emits()
    }

    fn none() -> (h: Self) {
        (H1::none(),)
    }

    fn call(self, log: &mut Vec<E>) {
        let (h1,) = self;
        h1.call(log);
    }
}

impl<E, H1: ScopeEndHandler<E>, H2: ScopeEndHandler<E>> ScopeEndHandler<E> for (H1, H2) {
    open spec fn emits(&self) -> Seq<E> {
        self.0.emits() + self.1.emits()
    }

    fn none() -> (h: Self) {
        let h = (H1::none(), H2::none());
        proof {
            assert(h.emits() =~= Seq::<E>::empty());
        }
        h
    }

    fn call(self, log: &mut Vec<E>) {
        let (h1, h2) = self;
        h1.call(log);
        h2.call(log);
        proof {
            assert(log@ =~= old(log)@ + self.emits());
        }
    }
}

impl<E, H1: ScopeEndHandler<E>, H2: ScopeEndHandler<E>, H3: ScopeEndHandler<E>> ScopeEndHandler<E> for (H1, H2, H3) {
    open spec fn emits(&self) -> Seq<E> {
        self.0.emits() + self.1.emits() + self.2.emits()
    }

    fn none() -> (h: Self) {
        let h = (H1::none(), H2::none(), H3::none());
        proof {
            assert(h.emits() =~= Seq::<E>::empty());
        }
        h
    }

    fn call(self, log: &mut Vec<E>) {
        let (h1, h2, h3) = self;
        h1.call(log);
        h2.call(log);
        h3.call(log);
        proof {
            assert(log@ =~= old(log)@ + self.emits());
        }
    }
}

impl<E, H1: ScopeEndHandler<E>, H2: ScopeEndHandler<E>, H3: ScopeEndHandler<E>, H4: ScopeEndHandler<E>> ScopeEndHandler<E> for (H1, H2, H3, H4) {
    open spec fn emits(&self) -> Seq<E> {
        self.0.emits() + self.1.emits() + self.2.emits() + self.3.emits()
    }

    fn none() -> (h: Self) {
        let h = (H1::none(), H2::none(), H3::none(), H4::none());
        proof {
            assert(h.emits() =~= Seq::<E>::empty());
        }
        h
    }

    fn call(self, log: &mut Vec<E>) {
        let (h1, h2, h3, h4) = self;
        h1.call(log);
        h2.call(log);
        h3.call(log);
        h4.call(log);
        proof {
            assert(log@ =~= old(log)@ + self.emits());
        }
    }
}

impl<E, H1: ScopeEndHandler<E>, H2: ScopeEndHandler<E>, H3: ScopeEndHandler<E>, H4: ScopeEndHandler<E>, H5: ScopeEndHandler<E>> ScopeEndHandler<E> for (H1, H2, H3, H4, H5) {
    open spec fn emits(&self) -> Seq<E> {
        self.0.emits() + self.1.emits() + self.2.emits() + self.3.emits() + self.4.emits()
    }

    fn none() -> (h: Self) {
        let h = (H1::none(), H2::none(), H3::none(), H4::none(), H5::none());
        proof {
            assert(h.emits() =~= Seq::<E>::empty());
        }
        h
    }

    fn call(self, log: &mut Vec<E>) {
        let (h1, h2, h3, h4, h5) = self;
        h1.call(log);
        h2.call(log);
        h3.call(log);
        h4.call(log);
        h5.call(log);
        proof {
            assert(log@ =~= old(log)@ + self.emits());
        }
    }
}

impl<E, H1: ScopeEndHandler<E>, H2: ScopeEndHandler<E>, H3: ScopeEndHandler<E>, H4: ScopeEndHandler<E>, H5: ScopeEndHandler<E>, H6: ScopeEndHandler<E>> ScopeEndHandler<E> for (H1, H2, H3, H4, H5, H6) {
    open spec fn emits(&self) -> Seq<E> {
        self.0.emits() + self.1.emits() + self.2.emits() + self.3.emits() + self.4.emits() + self.5.emits()
    }

    fn none() -> (h: Self) {
        let h = (H1::none(), H2::none(), H3::none(), H4::none(), H5::none(), H6::none());
        proof {
            assert(h.emits() =~= Seq::<E>::empty());
        }
        h
    }

    fn call(self, log: &mut Vec<E>) {
        let (h1, h2, h3, h4, h5, h6) = self;
        h1.call(log);
        h2.call(log);
        h3.call(log);
        h4.call(log);
        h5.call(log);
        h6.call(log);
        proof {
            assert(log@ =~= old(log)@ + self.emits());
        }
    }
}

/// A guard that protects access to temporary resources for the duration of
/// a scope.
///
/// A guard owns at most one handler slot. Assignment replaces the slot's
/// contents outright; the previous handler is discarded, not invoked. The
/// finalization pass ([`private::ScopeGuardPriv::call`]) invokes the held
/// handler and empties the slot, so the handler runs exactly once however
/// many passes follow.
pub trait ScopeGuard<E>: private::ScopeGuardPriv<E> {
    type Handler: ScopeEndHandler<E>;

    /// Assigns `handler` to the guard's slot, discarding the previous
    /// contents; a guard without a slot discards the new handler instead.
    fn set_handler(&mut self, handler: Self::Handler)
        ensures
            final(self).pending() == (if old(self).discards() {
                Seq::<E>::empty()
            } else {
                handler.emits()
            }),
            final(self).discards() == old(self).discards(),
    ;

    /// Removes and returns the slot's contents, leaving the slot empty;
    /// a guard without a slot returns the no-op handler.
    fn take_handler(&mut self) -> (h: Self::Handler)
        ensures
            h.emits() == old(self).pending(),
            final(self).pending() == Seq::<E>::empty(),
            final(self).discards() == old(self).discards(),
    ;
}

/// A guard for a bounded scope: it owns one handler slot, and the scope
/// driver finalizes it when the scope ends.
///
/// The guard is an owned value, never a shared reference, so at any time
/// exactly one holder can assign to or finalize its slot: handing the guard
/// to other code means moving it, and the driver receives it back from the
/// body before running the finalization sweep.
#[derive(Debug)]
pub struct LocalScopeGuard<H> {
    handler: H,
}

impl<E, H: ScopeEndHandler<E>> private::ScopeGuardPriv<E> for LocalScopeGuard<H> {
    closed spec fn pending(&self) -> Seq<E> {
        self.handler.emits()
    }

    open spec fn discards(&self) -> bool {
        false
    }

    fn new() -> (g: Self) {
        LocalScopeGuard { handler: H::none() }
    }

    fn call(&mut self, log: &mut Vec<E>) {
        let mut h = H::none();
        std::mem::swap(&mut self.handler, &mut h);
        h.call(log);
    }
}

impl<E, H: ScopeEndHandler<E>> ScopeGuard<E> for LocalScopeGuard<H> {
    type Handler = H;

    fn set_handler(&mut self, handler: H) {
        self.handler = handler;
    }

    fn take_handler(&mut self) -> (h: H) {
        let mut h = H::none();
        std::mem::swap(&mut self.handler, &mut h);
        h
    }
}

/// A guard for the whole-program scope: there is no scope end to finalize
/// at, so it has no handler slot and assignments are discarded.
#[derive(Debug)]
pub struct StaticScopeGuard<H> {
    pub handler: PhantomData<H>,
}

impl<H> StaticScopeGuard<H> {
    /// Returns a new `StaticScopeGuard`.
    pub fn new() -> (g: Self)
        ensures
            g == (StaticScopeGuard::<H> { handler: PhantomData }),
    {
        StaticScopeGuard { handler: PhantomData }
    }
}

impl<E, H: ScopeEndHandler<E>> private::ScopeGuardPriv<E> for StaticScopeGuard<H> {
    open spec fn pending(&self) -> Seq<E> {
        Seq::empty()
    }

    open spec fn discards(&self) -> bool {
        true
    }

    fn new() -> (g: Self) {
        StaticScopeGuard { handler: PhantomData }
    }

    fn call(&mut self, log: &mut Vec<E>) {
        proof {
            assert(log@ =~= log@ + Seq::<E>::empty());
        }
    }
}

impl<E, H: ScopeEndHandler<E>> ScopeGuard<E> for StaticScopeGuard<H> {
    type Handler = H;

    fn set_handler(&mut self, _handler: H) {
    }

    fn take_handler(&mut self) -> (h: H) {
        H::none()
    }
}

/// Creates a new scope.
///
/// This provides support for what are effectively destructors that are
/// guaranteed to be run when the scope ends: a fresh collection of guards is
/// constructed and handed to `body`; after the body returns, every guard in
/// the collection the body handed back is finalized exactly once, in
/// construction order, and the finalization events are appended to `log`.
///
/// `G` may be a single [`LocalScopeGuard`] or a tuple of guard collections
/// up to length six (see [`private::LocalScopeGuards`]); nesting the tuples
/// gives arbitrarily many guards. The body receives the guards, may assign
/// handlers to them, and returns them together with its result, so that the
/// same guards can be threaded through APIs that take ownership and hand
/// back control.
pub fn scope<E, G, B, O>(body: B, log: &mut Vec<E>) -> (out: O) where
    G: private::LocalScopeGuards<E>,
    B: FnOnce(G) -> (G, O),

    requires
        forall|g: G| g.pending_all() == Seq::<E>::empty() ==> #[trigger] call_requires(
            body,
            (g,),
        ),
    ensures
        exists|g_in: G, g_out: G|
            {
                &&& g_in.pending_all() == Seq::<E>::empty()
                &&& #[trigger] call_ensures(body, (g_in,), (g_out, out))
                &&& final(log)@ == old(log)@ + g_out.pending_all()
            },
{
    let guards = G::new();
    let ghost g_in = guards;
    let (mut guards, out) = body(guards);
    let ghost g_out = guards;
    guards.call_all(log);
    proof {
        assert(g_in.pending_all() == Seq::<E>::empty() && call_ensures(
            body,
            (g_in,),
            (g_out, out),
        ) && log@ == old(log)@ + g_out.pending_all());
    }
    out
}

} // verus!
