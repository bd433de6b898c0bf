//! Cancellation sources and tokens.
//!
//! Every source lives in a `CancellationRegistry`; a source and the tokens
//! taken from it are handles into that registry, so that a cancellation
//! requested through the source is seen through every token. A source holds
//! whether cancellation was requested, the callbacks registered on its tokens
//! and the generation of its cancel-after timer.
use vstd::prelude::*;
use crate::outcome::{ArgumentOutOfRangeException, OperationCanceledException};

verus! {

/// The controlling side of a cancellation: a handle to one source of a
/// registry.
#[derive(Clone, Copy, Debug, PartialEq, Eq)]
pub struct CancellationTokenSource {
    index: usize,
}

/// The observing side of a cancellation: a handle to the source it was
/// taken from.
#[derive(Clone, Copy, Debug, PartialEq, Eq)]
pub struct CancellationToken {
    index: usize,
}

/// What registering a callback on a token hands back.
#[derive(Clone, Copy, Debug, PartialEq, Eq)]
pub struct CancellationTokenRegistration {
    pub token: CancellationToken,
}

/// A cancel-after request: once `delay_ms` milliseconds have passed, the
/// timer of `source` fires, and cancels it unless a later request replaced
/// this one (its `generation` is then no longer the source's).
#[derive(Clone, Copy, Debug, PartialEq, Eq)]
pub struct CancelTimer {
    pub source: CancellationTokenSource,
    pub delay_ms: u32,
    pub generation: u64,
}

impl CancellationTokenSource {
    /// Position of the source in its registry.
    pub closed spec fn handle(self) -> int {
        self.index as int
    }
}

impl CancellationToken {
    /// Position of the source the token observes.
    pub closed spec fn handle(self) -> int {
        self.index as int
    }
}

/// The state of one source.
pub struct SourceView<C> {
    pub cancelled: bool,
    pub timer: u64,
    pub listeners: Seq<C>,
}

struct SourceState<C> {
    cancelled: bool,
    timer: u64,
    listeners: Vec<C>,
}

impl<C> View for SourceState<C> {
    type V = SourceView<C>;

    closed spec fn view(&self) -> SourceView<C> {
        SourceView { cancelled: self.cancelled, timer: self.timer, listeners: self.listeners@ }
    }
}

/// All cancellation sources, each with the callbacks (of type `C`) waiting
/// for its cancellation.
pub struct CancellationRegistry<C> {
    sources: Vec<SourceState<C>>,
}

impl<C> View for CancellationRegistry<C> {
    type V = Seq<SourceView<C>>;

    closed spec fn view(&self) -> Seq<SourceView<C>> {
        self.sources@.map_values(|s: SourceState<C>| s@)
    }
}

/// A source as it is made: not cancelled, no callbacks, no timer reset yet.
pub open spec fn fresh_source<C>() -> SourceView<C> {
    SourceView { cancelled: false, timer: 0, listeners: Seq::empty() }
}

/// Cancelling source `i`: the first time, it becomes cancelled and hands out
/// its callbacks in the order they were registered; afterwards nothing changes
/// and nothing is handed out.
pub open spec fn cancel_effect<C>(v: Seq<SourceView<C>>, i: int) -> (Seq<SourceView<C>>, Seq<C>) {
    if v[i].cancelled {
        (v, Seq::empty())
    } else {
        (
            v.update(i, SourceView { cancelled: true, timer: v[i].timer, listeners: Seq::empty() }),
            v[i].listeners,
        )
    }
}

/// Registering callback `cb` on source `i`: on a live source it waits for the
/// cancellation; on a cancelled one it is handed back to be run at once.
pub open spec fn register_effect<C>(v: Seq<SourceView<C>>, i: int, cb: C) -> (
    Seq<SourceView<C>>,
    Option<C>,
) {
    if v[i].cancelled {
        (v, Some(cb))
    } else {
        (
            v.update(
                i,
                SourceView { cancelled: false, timer: v[i].timer, listeners: v[i].listeners.push(cb) },
            ),
            None,
        )
    }
}

/// Asking source `i` to cancel after `ms` milliseconds. A delay below -1 is
/// refused; on a cancelled source nothing happens; otherwise the timer starts
/// a new generation, which replaces any earlier request, and for a delay of at
/// least 0 that generation is handed out to be fired (-1 only stops the
/// earlier requests). Generation 0 is that of a source never asked; the
/// generations of requests run from 1, and after the largest back to 1.
pub open spec fn cancel_after_effect<C>(v: Seq<SourceView<C>>, i: int, ms: int) -> (
    Seq<SourceView<C>>,
    Option<Option<u64>>,
) {
    if ms < -1 {
        (v, None)
    } else if v[i].cancelled {
        (v, Some(None))
    } else {
        let generation = if v[i].timer == u64::MAX { 1 } else { (v[i].timer + 1) as u64 };
        (
            v.update(
                i,
                SourceView { cancelled: false, timer: generation, listeners: v[i].listeners },
            ),
            Some(if ms == -1 { None } else { Some(generation) }),
        )
    }
}

/// A cancel-after timer of generation `generation` firing on source `i`: it
/// cancels the source if it is a request (generation 0 is none) and still the
/// source's latest one, and does nothing otherwise.
pub open spec fn timer_fired_effect<C>(v: Seq<SourceView<C>>, i: int, generation: u64) -> (
    Seq<SourceView<C>>,
    Seq<C>,
) {
    if generation != 0 && v[i].timer == generation {
        cancel_effect(v, i)
    } else {
        (v, Seq::empty())
    }
}

impl<C> CancellationRegistry<C> {
    /// The registry holds no callback of a cancelled source: those are
    /// handed out when it is cancelled, or at once when registered later.
    pub open spec fn wf(&self) -> bool {
        no_callbacks_on_cancelled(self@)
    }

    /// The source belongs to this registry.
    pub open spec fn has_source(&self, s: CancellationTokenSource) -> bool {
        0 <= s.handle() < self@.len()
    }

    /// The token observes a source of this registry.
    pub open spec fn has_token(&self, t: CancellationToken) -> bool {
        0 <= t.handle() < self@.len()
    }

    /// A registry without sources.
    pub fn new() -> (r: Self)
        ensures
            r.wf(),
            r@ == Seq::<SourceView<C>>::empty(),
    {
        let r = CancellationRegistry { sources: Vec::new() };
        assert(r@ =~= Seq::<SourceView<C>>::empty());
        r
    }

    /// Whether `s` is a source of this registry.
    pub fn contains_source(&self, s: CancellationTokenSource) -> (b: bool)
        ensures
            b == self.has_source(s),
    {
        s.index < self.sources.len()
    }

    /// Whether `t` observes a source of this registry.
    pub fn contains_token(&self, t: CancellationToken) -> (b: bool)
        ensures
            b == self.has_token(t),
    {
        t.index < self.sources.len()
    }
}

impl CancellationToken {
    /// Whether cancellation was requested of the source the token observes.
    pub fn is_cancellation_requested<C>(&self, registry: &CancellationRegistry<C>) -> (b: bool)
        requires
            registry.has_token(*self),
        ensures
            b == registry@[self.handle()].cancelled,
    {
        registry.sources[self.index].cancelled
    }
}

/// Makes a new source, not cancelled.
pub fn createCancellationToken<C>(registry: &mut CancellationRegistry<C>) -> (source:
    CancellationTokenSource)
    requires
        old(registry).wf(),
    ensures
        final(registry).wf(),
        final(registry)@ == old(registry)@.push(fresh_source()),
        source.handle() == old(registry)@.len(),
        final(registry).has_source(source),
{
    let index = registry.sources.len();
    registry.sources.push(SourceState { cancelled: false, timer: 0, listeners: Vec::new() });
    proof {
        assert(registry@ =~= old(registry)@.push(fresh_source()));
    }
    CancellationTokenSource { index }
}

/// Makes a new source that cancels itself once `milliseconds` have passed:
/// the timer to fire comes back with it. A delay of -1 means never; one
/// below -1 is refused, and no source is made.
pub fn createCancellationTokenWithDelay<C>(
    registry: &mut CancellationRegistry<C>,
    milliseconds: i32,
) -> (r: Result<(CancellationTokenSource, Option<CancelTimer>), ArgumentOutOfRangeException>)
    requires
        old(registry).wf(),
    ensures
        final(registry).wf(),
        r is Err <==> milliseconds < -1,
        r is Err ==> final(registry)@ == old(registry)@,
        r matches Ok((source, timer)) ==> {
            &&& source.handle() == old(registry)@.len()
            &&& final(registry).has_source(source)
            &&& final(registry)@ == cancel_after_effect(
                old(registry)@.push(fresh_source()),
                source.handle(),
                milliseconds as int,
            ).0
            &&& (milliseconds == -1 ==> timer is None)
            &&& (milliseconds >= 0 ==> (timer matches Some(t) && t.source == source && t.delay_ms
                == milliseconds && t.generation == final(registry)@[source.handle()].timer))
        },
{
    if milliseconds < -1 {
        return Err(ArgumentOutOfRangeException {});
    }
    let source = createCancellationToken(registry);
    match cancelAfter(registry, source, milliseconds) {
        Ok(timer) => Ok((source, timer)),
        Err(e) => Err(e),
    }
}

/// Requests cancellation of the source. The first time, the source becomes
/// cancelled and its callbacks come back, in the order they were registered,
/// to be run; afterwards nothing changes and nothing comes back.
pub fn cancel<C>(registry: &mut CancellationRegistry<C>, source: CancellationTokenSource) -> (callbacks:
    Vec<C>)
    requires
        old(registry).wf(),
        old(registry).has_source(source),
    ensures
        final(registry).wf(),
        (final(registry)@, callbacks@) == cancel_effect(old(registry)@, source.handle()),
{
    let i = source.index;
    let mut callbacks: Vec<C> = Vec::new();
    if registry.sources[i].cancelled {
        assert(callbacks@ =~= Seq::<C>::empty());
        return callbacks;
    }
    let entry = &mut registry.sources[i];
    std::mem::swap(&mut callbacks, &mut entry.listeners);
    entry.cancelled = true;
    proof {
        let eff = cancel_effect(old(registry)@, source.handle());
        assert(registry@ =~= eff.0);
    }
    callbacks
}

/// Asks the source to cancel itself once `milliseconds` have passed,
/// replacing any earlier such request. A delay of -1 only withdraws the
/// earlier requests; one below -1 is refused. On a cancelled source nothing
/// happens. The timer to fire, if any, comes back.
pub fn cancelAfter<C>(
    registry: &mut CancellationRegistry<C>,
    source: CancellationTokenSource,
    milliseconds: i32,
) -> (r: Result<Option<CancelTimer>, ArgumentOutOfRangeException>)
    requires
        old(registry).wf(),
        old(registry).has_source(source),
    ensures
        final(registry).wf(),
        final(registry)@ == cancel_after_effect(
            old(registry)@,
            source.handle(),
            milliseconds as int,
        ).0,
        match cancel_after_effect(old(registry)@, source.handle(), milliseconds as int).1 {
            None => r is Err,
            Some(None) => r == Ok::<Option<CancelTimer>, ArgumentOutOfRangeException>(None),
            Some(Some(generation)) => r == Ok::<Option<CancelTimer>, ArgumentOutOfRangeException>(
                Some(
                    CancelTimer {
                        source: source,
                        delay_ms: milliseconds as u32,
                        generation: generation,
                    },
                ),
            ),
        },
{
    let i = source.index;
    if milliseconds < -1 {
        return Err(ArgumentOutOfRangeException {});
    }
    if registry.sources[i].cancelled {
        return Ok(None);
    }
    let current = registry.sources[i].timer;
    let generation: u64 = if current == u64::MAX { 1 } else { current + 1 };
    registry.sources[i].timer = generation;
    proof {
        let eff = cancel_after_effect(old(registry)@, source.handle(), milliseconds as int);
        assert(registry@ =~= eff.0);
    }
    if milliseconds == -1 {
        Ok(None)
    } else {
        Ok(Some(CancelTimer { source, delay_ms: milliseconds as u32, generation }))
    }
}

/// A cancel-after timer has fired: the source is cancelled, and its callbacks
/// come back, unless a later request replaced the timer or the source was
/// cancelled already.
pub fn cancel_timer_elapsed<C>(registry: &mut CancellationRegistry<C>, timer: CancelTimer) -> (callbacks:
    Vec<C>)
    requires
        old(registry).wf(),
        old(registry).has_source(timer.source),
    ensures
        final(registry).wf(),
        (final(registry)@, callbacks@) == timer_fired_effect(
            old(registry)@,
            timer.source.handle(),
            timer.generation,
        ),
{
    if timer.generation != 0 && registry.sources[timer.source.index].timer == timer.generation {
        cancel(registry, timer.source)
    } else {
        let callbacks: Vec<C> = Vec::new();
        assert(callbacks@ =~= Seq::<C>::empty());
        callbacks
    }
}

/// Whether cancellation of the source was requested.
pub fn isCancellationRequested<C>(registry: &CancellationRegistry<C>, source: CancellationTokenSource) -> (b:
    bool)
    requires
        registry.has_source(source),
    ensures
        b == registry@[source.handle()].cancelled,
{
    registry.sources[source.index].cancelled
}

/// Fails with the cancellation exception exactly when cancellation of the
/// source was requested.
pub fn throwIfCancellationRequested<C>(
    registry: &CancellationRegistry<C>,
    source: CancellationTokenSource,
) -> (r: Result<(), OperationCanceledException>)
    requires
        registry.has_source(source),
    ensures
        r is Err <==> registry@[source.handle()].cancelled,
{
    if registry.sources[source.index].cancelled {
        Err(OperationCanceledException {})
    } else {
        Ok(())
    }
}

/// The token that observes the source.
pub fn getToken(source: CancellationTokenSource) -> (token: CancellationToken)
    ensures
        token.handle() == source.handle(),
{
    CancellationToken { index: source.index }
}

/// Registers `callback` to run when the token's source is cancelled. If it
/// was cancelled already, the callback comes back at once, to be run now.
pub fn register<C>(registry: &mut CancellationRegistry<C>, token: CancellationToken, callback: C) -> (r: (
    CancellationTokenRegistration,
    Option<C>,
))
    requires
        old(registry).wf(),
        old(registry).has_token(token),
    ensures
        final(registry).wf(),
        r.0.token == token,
        (final(registry)@, r.1) == register_effect(old(registry)@, token.handle(), callback),
{
    let i = token.index;
    if registry.sources[i].cancelled {
        return (CancellationTokenRegistration { token }, Some(callback));
    }
    registry.sources[i].listeners.push(callback);
    proof {
        let eff = register_effect(old(registry)@, token.handle(), callback);
        assert(registry@ =~= eff.0);
    }
    (CancellationTokenRegistration { token }, None)
}

/// Once cancellation of a source is requested, the source (and so every token
/// taken from it) reports it.
pub proof fn law_cancel_is_observed<C>(v: Seq<SourceView<C>>, i: int)
    requires
        0 <= i < v.len(),
    ensures
        cancel_effect(v, i).0[i].cancelled,
        cancel_effect(v, i).0.len() == v.len(),
{
}

/// Cancelling twice is cancelling once: the second request changes nothing
/// and hands out no callback.
pub proof fn law_cancel_idempotent<C>(v: Seq<SourceView<C>>, i: int)
    requires
        0 <= i < v.len(),
    ensures
        cancel_effect(cancel_effect(v, i).0, i) == (cancel_effect(v, i).0, Seq::<C>::empty()),
{
}

/// Requests made of one source leave every other source as it was.
pub proof fn law_sources_independent<C>(v: Seq<SourceView<C>>, i: int, j: int, cb: C, ms: int, generation: u64)
    requires
        0 <= i < v.len(),
        0 <= j < v.len(),
        i != j,
    ensures
        cancel_effect(v, i).0[j] == v[j],
        register_effect(v, i, cb).0[j] == v[j],
        cancel_after_effect(v, i, ms).0[j] == v[j],
        timer_fired_effect(v, i, generation).0[j] == v[j],
{
}

/// A callback registered on a live source is handed out by its cancellation,
/// after the callbacks registered before it.
pub proof fn law_registered_callback_runs_on_cancel<C>(v: Seq<SourceView<C>>, i: int, cb: C)
    requires
        0 <= i < v.len(),
        !v[i].cancelled,
    ensures
        register_effect(v, i, cb).1 is None,
        cancel_effect(register_effect(v, i, cb).0, i).1 == v[i].listeners.push(cb),
{
}

/// A callback registered on a cancelled source is handed back at once and
/// never kept.
pub proof fn law_late_callback_runs_now<C>(v: Seq<SourceView<C>>, i: int, cb: C)
    requires
        0 <= i < v.len(),
        v[i].cancelled,
    ensures
        register_effect(v, i, cb) == (v, Some(cb)),
{
}

/// The timer of the latest cancel-after request cancels the source when it
/// fires, handing out its callbacks.
pub proof fn law_latest_timer_cancels<C>(v: Seq<SourceView<C>>, i: int, ms: int)
    requires
        0 <= i < v.len(),
        !v[i].cancelled,
        ms >= 0,
    ensures
        ({
            let (w, generation) = cancel_after_effect(v, i, ms);
            &&& generation matches Some(Some(g))
            &&& timer_fired_effect(w, i, generation->Some_0->Some_0) == cancel_effect(w, i)
            &&& timer_fired_effect(w, i, generation->Some_0->Some_0).0[i].cancelled
            &&& timer_fired_effect(w, i, generation->Some_0->Some_0).1 == v[i].listeners
        }),
{
}

/// A cancel-after request that a later one replaced does nothing when its
/// timer fires (as long as the generations have not wrapped around).
pub proof fn law_replaced_timer_is_inert<C>(v: Seq<SourceView<C>>, i: int, first_ms: int, second_ms: int)
    requires
        0 <= i < v.len(),
        !v[i].cancelled,
        v[i].timer < u64::MAX - 1,
        first_ms >= 0,
        second_ms >= -1,
    ensures
        ({
            let (w1, first) = cancel_after_effect(v, i, first_ms);
            let (w2, second) = cancel_after_effect(w1, i, second_ms);
            &&& first matches Some(Some(g))
            &&& timer_fired_effect(w2, i, first->Some_0->Some_0) == (w2, Seq::<C>::empty())
        }),
{
}

/// Every request keeps the registry free of callbacks of cancelled sources.
pub proof fn law_effects_keep_wf<C>(v: Seq<SourceView<C>>, i: int, cb: C, ms: int, generation: u64)
    requires
        no_callbacks_on_cancelled(v),
        0 <= i < v.len(),
    ensures
        no_callbacks_on_cancelled(cancel_effect(v, i).0),
        no_callbacks_on_cancelled(register_effect(v, i, cb).0),
        no_callbacks_on_cancelled(cancel_after_effect(v, i, ms).0),
        no_callbacks_on_cancelled(timer_fired_effect(v, i, generation).0),
        no_callbacks_on_cancelled(v.push(fresh_source())),
{
    let w = v.push(fresh_source::<C>());
    assert forall|k: int| 0 <= k < w.len() && (#[trigger] w[k]).cancelled implies w[k].listeners.len() == 0 by {
        if k < v.len() {
            assert(w[k] == v[k]);
        }
    }
}

/// A request made of a registry, with the handles of the sources it names.
pub enum RegistryOp<C> {
    /// Make a new source.
    Create,
    /// Request cancellation of a source.
    Cancel(usize),
    /// Register a callback on a source's token.
    Register(usize, C),
    /// Ask a source to cancel after a delay.
    CancelAfter(usize, i32),
    /// A cancel-after timer of the given generation fired on a source.
    TimerFired(usize, u64),
}

/// The sources after one request; a request naming no source changes nothing.
pub open spec fn registry_step<C>(v: Seq<SourceView<C>>, op: RegistryOp<C>) -> Seq<SourceView<C>> {
    match op {
        RegistryOp::Create => v.push(fresh_source()),
        RegistryOp::Cancel(i) => if i < v.len() { cancel_effect(v, i as int).0 } else { v },
        RegistryOp::Register(i, cb) => if i < v.len() {
            register_effect(v, i as int, cb).0
        } else {
            v
        },
        RegistryOp::CancelAfter(i, ms) => if i < v.len() {
            cancel_after_effect(v, i as int, ms as int).0
        } else {
            v
        },
        RegistryOp::TimerFired(i, g) => if i < v.len() {
            timer_fired_effect(v, i as int, g).0
        } else {
            v
        },
    }
}

/// The sources after the requests `ops`, made one after the other.
pub open spec fn registry_run<C>(v: Seq<SourceView<C>>, ops: Seq<RegistryOp<C>>) -> Seq<
    SourceView<C>,
>
    decreases ops.len(),
{
    if ops.len() == 0 {
        v
    } else {
        registry_step(registry_run(v, ops.drop_last()), ops.last())
    }
}

/// A cancellation request persists: once a source is cancelled, it stays
/// cancelled whatever requests follow, and no source is ever lost.
pub proof fn law_cancellation_persists<C>(v: Seq<SourceView<C>>, i: int, ops: Seq<RegistryOp<C>>)
    requires
        0 <= i < v.len(),
        v[i].cancelled,
    ensures
        registry_run(v, ops).len() >= v.len(),
        registry_run(v, ops)[i].cancelled,
    decreases ops.len(),
{
    if ops.len() > 0 {
        law_cancellation_persists(v, i, ops.drop_last());
    }
}

/// Only two requests set a source cancelled: cancelling it, and the firing of
/// the timer of its latest cancel-after request, which exists (the source's
/// generation is not 0).
pub proof fn law_only_cancel_or_timer_cancels<C>(v: Seq<SourceView<C>>, i: int, op: RegistryOp<C>)
    requires
        0 <= i < v.len(),
        !v[i].cancelled,
        registry_step(v, op)[i].cancelled,
    ensures
        op == RegistryOp::<C>::Cancel(i as usize) || (v[i].timer != 0 && op
            == RegistryOp::<C>::TimerFired(i as usize, v[i].timer)),
{
}

/// A source never asked to cancel after a delay is cancelled by no timer,
/// and no request ever hands out generation 0.
pub proof fn law_unarmed_source_ignores_timers<C>(v: Seq<SourceView<C>>, i: int, generation: u64, ms: int)
    requires
        0 <= i < v.len(),
        v[i].timer == 0,
    ensures
        timer_fired_effect(v, i, generation) == (v, Seq::<C>::empty()),
        cancel_after_effect(v, i, ms).1 matches Some(Some(g)) ==> g != 0,
        !v[i].cancelled ==> ms >= -1 ==> cancel_after_effect(v, i, ms).0[i].timer != 0,
{
}

/// Whether `op` is a cancel-after request made of source `i`.
pub open spec fn rearms<C>(op: RegistryOp<C>, i: int) -> bool {
    match op {
        RegistryOp::CancelAfter(k, _) => k == i,
        _ => false,
    }
}

/// Whether `op` can cancel source `i`: a cancellation of it, or a timer
/// firing on it.
pub open spec fn may_cancel<C>(op: RegistryOp<C>, i: int) -> bool {
    match op {
        RegistryOp::Cancel(k) => k == i,
        RegistryOp::TimerFired(k, _) => k == i,
        _ => false,
    }
}

/// Only a new cancel-after request made of a source changes its pending
/// request: registering callbacks, cancelling, timers firing and requests
/// made of other sources all leave it as it is, and no source is lost.
pub proof fn law_only_cancel_after_rearms<C>(v: Seq<SourceView<C>>, i: int, op: RegistryOp<C>)
    requires
        0 <= i < v.len(),
        !rearms(op, i),
    ensures
        registry_step(v, op).len() >= v.len(),
        registry_step(v, op)[i].timer == v[i].timer,
{
}

/// Over any requests none of which is a new cancel-after request made of
/// source `i`, its pending request stays the same.
pub proof fn law_pending_request_survives<C>(v: Seq<SourceView<C>>, i: int, ops: Seq<RegistryOp<C>>)
    requires
        0 <= i < v.len(),
        forall|j: int| 0 <= j < ops.len() ==> !rearms(#[trigger] ops[j], i),
    ensures
        registry_run(v, ops).len() >= v.len(),
        registry_run(v, ops)[i].timer == v[i].timer,
    decreases ops.len(),
{
    if ops.len() > 0 {
        let prefix = ops.drop_last();
        assert forall|j: int| 0 <= j < prefix.len() implies !rearms(#[trigger] prefix[j], i) by {
            assert(prefix[j] == ops[j]);
        }
        law_pending_request_survives(v, i, prefix);
        law_only_cancel_after_rearms(registry_run(v, prefix), i, ops.last());
    }
}

/// A cancel-after request with a delay of at least 0 is kept: whatever
/// requests follow, so long as none is a new cancel-after request made of the
/// same source (callbacks registered, other sources cancelled, stale timers
/// firing, ...), the firing of its timer leaves the source cancelled.
pub proof fn law_armed_timer_cancels_later<C>(v: Seq<SourceView<C>>, i: int, ms: int, ops: Seq<RegistryOp<C>>)
    requires
        0 <= i < v.len(),
        !v[i].cancelled,
        ms >= 0,
        forall|j: int| 0 <= j < ops.len() ==> !rearms(#[trigger] ops[j], i),
    ensures
        ({
            let (w, r) = cancel_after_effect(v, i, ms);
            &&& r matches Some(Some(g))
            &&& r->Some_0->Some_0 != 0
            &&& timer_fired_effect(registry_run(w, ops), i, r->Some_0->Some_0).0[i].cancelled
        }),
{
    let (w, r) = cancel_after_effect(v, i, ms);
    law_pending_request_survives(w, i, ops);
}

/// A timer that is not the one of the source's latest cancel-after request
/// (an older one, a later one, or generation 0) changes nothing and hands out
/// nothing.
pub proof fn law_stale_timer_is_inert<C>(v: Seq<SourceView<C>>, i: int, generation: u64)
    requires
        0 <= i < v.len(),
        generation != v[i].timer,
    ensures
        timer_fired_effect(v, i, generation) == (v, Seq::<C>::empty()),
{
}

/// Registering a callback on a source changes nothing of it but its
/// callbacks: whether it is cancelled and its pending cancel-after request
/// stay as they were, and on a live source the callback is added last.
pub proof fn law_register_keeps_source<C>(v: Seq<SourceView<C>>, i: int, cb: C)
    requires
        0 <= i < v.len(),
    ensures
        register_effect(v, i, cb).0.len() == v.len(),
        register_effect(v, i, cb).0[i].cancelled == v[i].cancelled,
        register_effect(v, i, cb).0[i].timer == v[i].timer,
        !v[i].cancelled ==> register_effect(v, i, cb).0[i].listeners == v[i].listeners.push(cb),
        v[i].cancelled ==> register_effect(v, i, cb).0[i].listeners == v[i].listeners,
{
}

/// A cancel-after request, whatever its delay (-1 and refused ones too),
/// never touches the callbacks of the source nor cancels it.
pub proof fn law_cancel_after_keeps_callbacks<C>(v: Seq<SourceView<C>>, i: int, ms: int)
    requires
        0 <= i < v.len(),
    ensures
        cancel_after_effect(v, i, ms).0.len() == v.len(),
        cancel_after_effect(v, i, ms).0[i].listeners == v[i].listeners,
        cancel_after_effect(v, i, ms).0[i].cancelled == v[i].cancelled,
{
}

/// Registered callbacks are kept until the source is cancelled: over any
/// requests none of which can cancel it, the callbacks of a live source are
/// only ever added to, and it stays live.
pub proof fn law_callbacks_kept_until_cancelled<C>(v: Seq<SourceView<C>>, i: int, ops: Seq<RegistryOp<C>>)
    requires
        0 <= i < v.len(),
        !v[i].cancelled,
        forall|j: int| 0 <= j < ops.len() ==> !may_cancel(#[trigger] ops[j], i),
    ensures
        registry_run(v, ops).len() >= v.len(),
        !registry_run(v, ops)[i].cancelled,
        v[i].listeners.is_prefix_of(registry_run(v, ops)[i].listeners),
    decreases ops.len(),
{
    if ops.len() > 0 {
        let prefix = ops.drop_last();
        assert forall|j: int| 0 <= j < prefix.len() implies !may_cancel(#[trigger] prefix[j], i) by {
            assert(prefix[j] == ops[j]);
        }
        law_callbacks_kept_until_cancelled(v, i, prefix);
        let u = registry_run(v, prefix);
        let op = ops.last();
        assert(!may_cancel(ops[ops.len() - 1], i));
        let w = registry_step(u, op);
        assert(w[i].listeners == u[i].listeners || w[i].listeners == u[i].listeners.push(
            w[i].listeners.last(),
        ));
        if w[i].listeners != u[i].listeners {
            assert(v[i].listeners.is_prefix_of(w[i].listeners)) by {
                assert forall|k: int| 0 <= k < v[i].listeners.len() implies v[i].listeners[k]
                    == w[i].listeners[k] by {
                    assert(u[i].listeners[k] == v[i].listeners[k]);
                }
            }
        }
    }
}

/// No cancelled source of `v` holds a callback.
pub open spec fn no_callbacks_on_cancelled<C>(v: Seq<SourceView<C>>) -> bool {
    forall|k: int| 0 <= k < v.len() && (#[trigger] v[k]).cancelled ==> v[k].listeners.len() == 0
}

} // verus!
