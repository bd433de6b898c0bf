//! Object monitors: the set of objects (by address) that some thread holds
//! the monitor of.
use vstd::prelude::*;
use std::collections::HashSet;

verus! {

broadcast use vstd::std_specs::hash::group_hash_axioms;

/// The addresses of the objects whose monitor is held.
pub struct LockSet {
    held: HashSet<usize>,
}

impl View for LockSet {
    type V = Set<usize>;

    closed spec fn view(&self) -> Set<usize> {
        self.held@
    }
}

/// The lock set as it starts: no monitor held.
pub fn try_init_and_get_locks() -> (locks: LockSet)
    ensures
        locks@ == Set::<usize>::empty(),
{
    LockSet { held: HashSet::new() }
}

/// A request made of the lock set.
pub enum LockOp {
    /// One attempt to enter the monitor of this key.
    TryEnter(usize),
    /// Leaving the monitor of this key.
    Exit(usize),
}

/// The lock set after a request, and whether the request succeeded: an
/// attempt to enter succeeds, and holds the key, exactly when the key was not
/// held; leaving always succeeds and frees the key.
pub open spec fn lock_step(held: Set<usize>, op: LockOp) -> (Set<usize>, bool) {
    match op {
        LockOp::TryEnter(k) => (held.insert(k), !held.contains(k)),
        LockOp::Exit(k) => (held.remove(k), true),
    }
}

/// The lock set after the requests `ops`, made one after the other.
pub open spec fn lock_run(held: Set<usize>, ops: Seq<LockOp>) -> Set<usize>
    decreases ops.len(),
{
    if ops.len() == 0 {
        held
    } else {
        lock_step(lock_run(held, ops.drop_last()), ops.last()).0
    }
}

/// Whether the `j`-th of the requests `ops` succeeded.
pub open spec fn lock_outcome(held: Set<usize>, ops: Seq<LockOp>, j: int) -> bool {
    lock_step(lock_run(held, ops.take(j)), ops[j]).1
}

impl LockSet {
    /// Whether the monitor of `key` is held.
    pub fn is_held(&self, key: usize) -> (b: bool)
        ensures
            b == self@.contains(key),
    {
        self.held.contains(&key)
    }

    /// One attempt to enter the monitor of `key`: it succeeds, and the
    /// monitor becomes held, exactly when nobody holds it; a failed attempt
    /// changes nothing.
    pub fn try_enter(&mut self, key: usize) -> (entered: bool)
        ensures
            entered == !old(self)@.contains(key),
            final(self)@ == old(self)@.insert(key),
            (final(self)@, entered) == lock_step(old(self)@, LockOp::TryEnter(key)),
    {
        if self.held.contains(&key) {
            false
        } else {
            self.held.insert(key);
            true
        }
    }
}

/// Leaves the monitor of `key`, which must be held.
pub fn exit(locks: &mut LockSet, key: usize)
    requires
        old(locks)@.contains(key),
    ensures
        final(locks)@ == old(locks)@.remove(key),
        final(locks)@ == lock_step(old(locks)@, LockOp::Exit(key)).0,
{
    let removed = locks.held.remove(&key);
    assert(removed);
    assert(locks@ =~= old(locks)@.remove(key));
}

/// Runs `f` while holding the monitor of `key`, and returns its result; `f`
/// sees the lock set with the monitor held, and the monitor is free again
/// afterwards.
pub fn lock<U, F: FnOnce(&LockSet) -> U>(locks: &mut LockSet, key: usize, f: F) -> (r: U)
    requires
        !old(locks)@.contains(key),
        forall|held: &LockSet| held@ == old(locks)@.insert(key) ==> #[trigger] f.requires((held,)),
    ensures
        final(locks)@ == old(locks)@,
        exists|held: &LockSet| held@ == old(locks)@.insert(key) && #[trigger] f.ensures((held,), r),
{
    let entered = locks.try_enter(key);
    assert(entered);
    let r = f(&*locks);
    exit(locks, key);
    assert(locks@ =~= old(locks)@);
    r
}

/// Entering a free monitor and leaving it again restores the lock set, and
/// entering a monitor twice holds it once.
pub proof fn law_enter_exit_roundtrip(held: Set<usize>, key: usize)
    requires
        !held.contains(key),
    ensures
        held.insert(key).remove(key) == held,
        held.insert(key).contains(key),
        held.insert(key).insert(key) == held.insert(key),
{
    assert(held.insert(key).remove(key) =~= held);
    assert(held.insert(key).insert(key) =~= held.insert(key));
}

/// Mutual exclusion: while the monitor of `key` is held and nobody leaves it,
/// every attempt to enter it fails, whatever else is entered or left, and it
/// stays held.
pub proof fn law_mutual_exclusion(held: Set<usize>, key: usize, ops: Seq<LockOp>)
    requires
        held.contains(key),
        forall|j: int| 0 <= j < ops.len() ==> #[trigger] ops[j] != LockOp::Exit(key),
    ensures
        lock_run(held, ops).contains(key),
        forall|j: int|
            0 <= j < ops.len() && #[trigger] ops[j] == LockOp::TryEnter(key) ==> !lock_outcome(
                held,
                ops,
                j,
            ),
    decreases ops.len(),
{
    if ops.len() > 0 {
        let prefix = ops.drop_last();
        law_mutual_exclusion(held, key, prefix);
        assert forall|j: int|
            0 <= j < ops.len() && #[trigger] ops[j] == LockOp::TryEnter(key) implies !lock_outcome(
            held,
            ops,
            j,
        ) by {
            if j < prefix.len() {
                assert(ops.take(j) =~= prefix.take(j));
                assert(prefix[j] == ops[j]);
            } else {
                assert(ops.take(j) =~= prefix);
            }
        }
        assert(ops[ops.len() - 1] != LockOp::Exit(key));
    }
}

} // verus!
