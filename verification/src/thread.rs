//! Threads created from a function and started and joined later.
//!
//! `F` is the type of the function the thread runs and `H` that of the handle
//! of a running thread.
use vstd::prelude::*;

verus! {

/// Where a thread is in its life.
pub enum ThreadInt<F, H> {
    /// Created, not started; holds the function to run.
    New(F),
    /// Started; holds the handle to join it by.
    Running(H),
    /// Neither: taken by a start or a join.
    Empty,
}

impl<F, H> Default for ThreadInt<F, H> {
    fn default() -> (t: Self)
        ensures
            t is Empty,
    {
        ThreadInt::Empty
    }
}

/// A thread and its state.
pub struct Thread<F, H>(ThreadInt<F, H>);

impl<F, H> View for Thread<F, H> {
    type V = ThreadInt<F, H>;

    closed spec fn view(&self) -> ThreadInt<F, H> {
        self.0
    }
}

/// A thread that will run `f` once started.
pub fn new<F, H>(f: F) -> (thread: Thread<F, H>)
    ensures
        thread@ == ThreadInt::<F, H>::New(f),
{
    Thread(ThreadInt::New(f))
}

impl<F, H> Thread<F, H> {
    /// Takes the state out, leaving the thread empty.
    fn take(&mut self) -> (state: ThreadInt<F, H>)
        ensures
            state == old(self)@,
            final(self)@ is Empty,
    {
        let mut state = ThreadInt::default();
        std::mem::swap(&mut state, &mut self.0);
        state
    }

    /// Starts the thread: a thread not started yet has its function handed
    /// to `spawn` and keeps the handle that comes back. In any other state
    /// the thread is left empty (a running thread's handle is dropped).
    pub fn start<S: FnOnce(F) -> H>(&mut self, spawn: S)
        requires
            old(self)@ matches ThreadInt::New(f) ==> spawn.requires((f,)),
        ensures
            match old(self)@ {
                ThreadInt::New(f) => final(self)@ matches ThreadInt::Running(h) && spawn.ensures(
                    (f,),
                    h,
                ),
                _ => final(self)@ is Empty,
            },
    {
        match self.take() {
            ThreadInt::New(f) => {
                let t = spawn(f);
                self.0 = ThreadInt::Running(t);
            },
            _ => {},
        }
    }

    /// Joins the thread: the handle of a running thread goes to `join`. The
    /// thread is left empty whatever its state was.
    pub fn join<J: FnOnce(H)>(&mut self, join: J)
        requires
            old(self)@ matches ThreadInt::Running(h) ==> join.requires((h,)),
        ensures
            final(self)@ is Empty,
            old(self)@ matches ThreadInt::Running(h) ==> join.ensures((h,), ()),
    {
        match self.take() {
            ThreadInt::Running(jh) => {
                join(jh);
            },
            _ => {},
        }
    }
}

} // verus!
