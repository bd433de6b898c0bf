//! The cancellation scope of a running computation: the token, if any, that
//! the computation running on the current thread answers to.
use vstd::prelude::*;
use crate::cancellation::{
    createCancellationToken, fresh_source, getToken, register, register_effect,
    CancellationRegistry, CancellationToken, CancellationTokenRegistration,
};
use crate::outcome::OperationCanceledException;

verus! {

/// The token that the computation running on a thread answers to.
pub struct CancellationScope {
    current: Option<CancellationToken>,
}

impl View for CancellationScope {
    type V = Option<CancellationToken>;

    closed spec fn view(&self) -> Option<CancellationToken> {
        self.current
    }
}

impl CancellationScope {
    /// The token of the scope, if any, observes a source of `registry`.
    pub open spec fn belongs_to<C>(&self, registry: &CancellationRegistry<C>) -> bool {
        self@ matches Some(t) ==> registry.has_token(t)
    }

    /// Whether cancellation was requested of the scope's token (no token: no).
    pub open spec fn requested<C>(&self, registry: &CancellationRegistry<C>) -> bool {
        match self@ {
            Some(t) => registry@[t.handle()].cancelled,
            None => false,
        }
    }

    /// A scope with no token.
    pub fn new() -> (scope: Self)
        ensures
            scope@ == None::<CancellationToken>,
    {
        CancellationScope { current: None }
    }

    /// Enters a computation that answers to `token`.
    pub fn enter_cancellation_scope(&mut self, token: Option<CancellationToken>)
        ensures
            final(self)@ == token,
    {
        self.current = token;
    }

    /// Leaves the computation: the thread answers to no token any more.
    pub fn leave(&mut self)
        ensures
            final(self)@ == None::<CancellationToken>,
    {
        self.current = None;
    }

    /// The token of the scope, if any.
    pub fn current(&self) -> (token: Option<CancellationToken>)
        ensures
            token == self@,
    {
        self.current
    }

    /// Whether cancellation was requested of the scope's token; without a
    /// token, never.
    pub fn current_cancellation_requested<C>(&self, registry: &CancellationRegistry<C>) -> (b: bool)
        requires
            self.belongs_to(registry),
        ensures
            b == self.requested(registry),
    {
        match &self.current {
            Some(t) => t.is_cancellation_requested(registry),
            None => false,
        }
    }

    /// Fails with the cancellation exception exactly when cancellation was
    /// requested of the scope's token.
    pub fn throw_if_canceled<C>(&self, registry: &CancellationRegistry<C>) -> (r: Result<
        (),
        OperationCanceledException,
    >)
        requires
            self.belongs_to(registry),
        ensures
            r is Err <==> self.requested(registry),
    {
        if self.current_cancellation_requested(registry) {
            Err(OperationCanceledException {})
        } else {
            Ok(())
        }
    }
}

/// Registers `callback` on the token of the scope. Without a token, it is
/// registered on the token of a new source made for it, which nothing else
/// can cancel.
pub fn onCancel<C>(
    scope: &CancellationScope,
    registry: &mut CancellationRegistry<C>,
    callback: C,
) -> (r: (CancellationTokenRegistration, Option<C>))
    requires
        old(registry).wf(),
        scope.belongs_to(&*old(registry)),
    ensures
        final(registry).wf(),
        match scope@ {
            Some(t) => {
                &&& r.0.token == t
                &&& (final(registry)@, r.1) == register_effect(old(registry)@, t.handle(), callback)
            },
            None => {
                &&& r.0.token.handle() == old(registry)@.len()
                &&& r.1 is None
                &&& final(registry)@ == register_effect(
                    old(registry)@.push(fresh_source()),
                    old(registry)@.len() as int,
                    callback,
                ).0
            },
        },
{
    match scope.current() {
        Some(token) => register(registry, token, callback),
        None => {
            let source = createCancellationToken(registry);
            let token = getToken(source);
            register(registry, token, callback)
        },
    }
}

} // verus!
