//! Scheduling decisions: how a sleep is sliced into short delays, and when
//! deeply nested polls must yield to the executor.
use vstd::prelude::*;

verus! {

/// Longest single delay, in milliseconds, that a sleep waits before it looks
/// at its cancellation token again.
pub const SLEEP_SLICE_MS: u32 = 20;

/// The delays, in order, that a sleep of `remaining` milliseconds waits.
pub open spec fn sleep_plan(remaining: int) -> Seq<u32>
    decreases remaining,
{
    if remaining <= 0 {
        Seq::empty()
    } else {
        let step: int = if remaining < SLEEP_SLICE_MS { remaining } else { SLEEP_SLICE_MS as int };
        seq![step as u32] + sleep_plan(remaining - step)
    }
}

/// Sum of a sequence of delays.
pub open spec fn total_delay(steps: Seq<u32>) -> int
    decreases steps.len(),
{
    if steps.len() == 0 {
        0
    } else {
        steps[0] + total_delay(steps.drop_first())
    }
}

/// The delays a sleep of `milliseconds` waits between two looks at its
/// cancellation token: slices of `SLEEP_SLICE_MS`, the last one shorter if the
/// time does not divide evenly. A negative time sleeps not at all.
pub fn sleep_steps(milliseconds: i32) -> (steps: Vec<u32>)
    ensures
        steps@ == sleep_plan(milliseconds as int),
{
    let mut remaining: i32 = if milliseconds > 0 { milliseconds } else { 0 };
    let mut steps: Vec<u32> = Vec::new();
    proof {
        assert(sleep_plan(milliseconds as int) == sleep_plan(remaining as int));
        assert(steps@ + sleep_plan(remaining as int) =~= sleep_plan(milliseconds as int));
    }
    while remaining > 0
        invariant
            0 <= remaining,
            steps@ + sleep_plan(remaining as int) == sleep_plan(milliseconds as int),
        decreases remaining,
    {
        let slice: i32 = SLEEP_SLICE_MS as i32;
        let step: i32 = if remaining < slice { remaining } else { slice };
        let ghost before = steps@;
        steps.push(step as u32);
        proof {
            assert(sleep_plan(remaining as int) == seq![step as u32] + sleep_plan(
                remaining - step,
            ));
            assert(steps@ + sleep_plan(remaining - step) =~= before + sleep_plan(
                remaining as int,
            ));
        }
        remaining = remaining - step;
    }
    assert(steps@ =~= steps@ + sleep_plan(remaining as int));
    steps
}

/// Every delay of a sleep is between one millisecond and one slice, all but
/// the last are a full slice, and together they add up to the time asked for
/// (nothing for a negative time).
pub proof fn law_sleep_plan(remaining: int)
    ensures
        total_delay(sleep_plan(remaining)) == if remaining > 0 { remaining } else { 0 },
        forall|i: int|
            0 <= i < sleep_plan(remaining).len() ==> 1 <= #[trigger] sleep_plan(remaining)[i]
                <= SLEEP_SLICE_MS,
        forall|i: int|
            0 <= i < sleep_plan(remaining).len() - 1 ==> #[trigger] sleep_plan(remaining)[i]
                == SLEEP_SLICE_MS,
    decreases remaining,
{
    if remaining > 0 {
        let step: int = if remaining < SLEEP_SLICE_MS { remaining } else { SLEEP_SLICE_MS as int };
        law_sleep_plan(remaining - step);
        let p = sleep_plan(remaining);
        let rest = sleep_plan(remaining - step);
        assert(p.drop_first() =~= rest);
        assert forall|i: int| 0 <= i < p.len() implies 1 <= #[trigger] p[i] <= SLEEP_SLICE_MS by {
            if i > 0 {
                assert(p[i] == rest[i - 1]);
            }
        }
        assert forall|i: int| 0 <= i < p.len() - 1 implies #[trigger] p[i] == SLEEP_SLICE_MS by {
            if i > 0 {
                assert(p[i] == rest[i - 1]);
            } else {
                if remaining < SLEEP_SLICE_MS {
                    assert(rest.len() == 0);
                }
            }
        }
    }
}

/// Depth of nested polls of delayed computations on one thread beyond which
/// the next one first yields to the executor, so that the stack unwinds.
pub const MAX_POLL_DEPTH: usize = 200;

/// The depth a thread is at after entering a delayed computation from depth
/// `d`: one more, or back to 0 when the limit was reached.
pub open spec fn entered_depth(d: nat) -> nat {
    if d >= MAX_POLL_DEPTH { 0 } else { d + 1 }
}

/// The depth a thread is at after a delayed computation entered at depth
/// `d` finished: one less, never below 0.
pub open spec fn left_depth(d: nat) -> nat {
    if d > 0 { (d - 1) as nat } else { 0 }
}

/// How deep the current thread is in nested polls of delayed computations.
pub struct PollDepth {
    depth: usize,
}

impl View for PollDepth {
    type V = nat;

    closed spec fn view(&self) -> nat {
        self.depth as nat
    }
}

impl PollDepth {
    #[verifier::type_invariant]
    spec fn within_limit(&self) -> bool {
        self.depth <= MAX_POLL_DEPTH
    }

    /// A thread not inside any delayed computation.
    pub fn new() -> (d: Self)
        ensures
            d@ == 0,
    {
        PollDepth { depth: 0 }
    }

    /// The current depth.
    pub fn depth(&self) -> (d: usize)
        ensures
            d == self@,
            d <= MAX_POLL_DEPTH,
    {
        proof {
            use_type_invariant(self);
        }
        self.depth
    }

    /// Entering a delayed computation. Returns whether it must first yield to
    /// the executor: exactly when the depth had reached the limit, which
    /// starts the count again from 0.
    pub fn enter(&mut self) -> (must_yield: bool)
        ensures
            must_yield == (old(self)@ >= MAX_POLL_DEPTH),
            final(self)@ == entered_depth(old(self)@),
            final(self)@ <= MAX_POLL_DEPTH,
    {
        proof {
            use_type_invariant(&*self);
        }
        let v = self.depth;
        if v >= MAX_POLL_DEPTH {
            self.depth = 0;
            true
        } else {
            self.depth = v + 1;
            false
        }
    }

    /// A delayed computation finished.
    pub fn leave(&mut self)
        ensures
            final(self)@ == left_depth(old(self)@),
            final(self)@ <= MAX_POLL_DEPTH,
    {
        proof {
            use_type_invariant(&*self);
        }
        let v = self.depth;
        if v > 0 {
            self.depth = v - 1;
        }
    }
}

/// The depth never passes the limit, and a computation that entered without
/// having to yield leaves the depth where it found it.
pub proof fn law_poll_depth(d: nat)
    requires
        d <= MAX_POLL_DEPTH,
    ensures
        entered_depth(d) <= MAX_POLL_DEPTH,
        left_depth(d) <= MAX_POLL_DEPTH,
        d < MAX_POLL_DEPTH ==> left_depth(entered_depth(d)) == d,
        d == MAX_POLL_DEPTH ==> entered_depth(d) == 0,
{
}

/// What one poll of a computation started on the current thread leads to.
pub enum ImmediateStep {
    /// It finished.
    Finished,
    /// It is pending but woke itself during the poll: poll it again at once.
    Repoll,
    /// It is pending and waits for something else.
    Suspended,
}

/// The step after one poll of a computation started on the current thread.
pub fn immediate_poll_step(ready: bool, woke: bool) -> (step: ImmediateStep)
    ensures
        ready ==> step is Finished,
        !ready && woke ==> step is Repoll,
        !ready && !woke ==> step is Suspended,
{
    if ready {
        ImmediateStep::Finished
    } else if woke {
        ImmediateStep::Repoll
    } else {
        ImmediateStep::Suspended
    }
}

/// What starting a computation on the current thread comes to.
pub enum ImmediateStart {
    /// Its token was cancelled already: it is not run.
    Skip,
    /// It ran to the end on the current thread.
    Completed,
    /// It could not finish there (or not be polled at all): it goes on as a
    /// task on the pool.
    Spawn,
}

/// Decides how a computation started on the current thread goes on, from
/// whether its token was cancelled and from the polls on this thread
/// (`None` when it could not be polled, `Some(finished)` otherwise).
pub fn immediate_start_action(token_cancelled: bool, polled: Option<bool>) -> (action: ImmediateStart)
    ensures
        token_cancelled ==> action is Skip,
        !token_cancelled && polled == Some(true) ==> action is Completed,
        !token_cancelled && polled != Some(true) ==> action is Spawn,
{
    if token_cancelled {
        ImmediateStart::Skip
    } else {
        match polled {
            Some(true) => ImmediateStart::Completed,
            _ => ImmediateStart::Spawn,
        }
    }
}

} // verus!
