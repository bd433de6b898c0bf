//! Tasks: a computation that is started at most once on a pool and whose
//! result, once it is complete, can be read any number of times.
//!
//! `T` is the type of the result and `F` that of the pending work, which the
//! task hands to the pool when it starts.
use vstd::prelude::*;

verus! {

/// Where a task is in its life.
pub enum TaskState<T, F> {
    /// Not started; holds the work to run.
    New(F),
    /// Handed to the pool, no result yet.
    Running,
    /// Finished with this result.
    Complete(T),
}

impl<T, F> TaskState<T, F> {
    /// Whether the task was not started yet.
    pub fn is_new(&self) -> (b: bool)
        ensures
            b == (*self is New),
    {
        match self {
            TaskState::New(_) => true,
            _ => false,
        }
    }

    /// Whether the task runs and has no result yet.
    pub fn is_running(&self) -> (b: bool)
        ensures
            b == (*self is Running),
    {
        match self {
            TaskState::Running => true,
            _ => false,
        }
    }

    /// Whether the task has its result.
    pub fn is_complete(&self) -> (b: bool)
        ensures
            b == (*self is Complete),
    {
        match self {
            TaskState::Complete(_) => true,
            _ => false,
        }
    }

    /// Puts `next` in place of the state and returns the state it replaces.
    pub fn replace(&mut self, next: TaskState<T, F>) -> (previous: TaskState<T, F>)
        ensures
            previous == *old(self),
            *final(self) == next,
    {
        let mut previous = next;
        std::mem::swap(self, &mut previous);
        previous
    }
}

impl<T: Clone, F> TaskState<T, F> {
    /// A copy of the result of a complete task.
    pub fn unwrap(&self) -> (value: T)
        requires
            *self is Complete,
        ensures
            cloned(self->Complete_0, value),
    {
        match self {
            TaskState::Complete(t) => t.clone(),
            _ => vstd::pervasive::unreached(),
        }
    }
}

/// What polling a task tells its poller to do.
pub enum TaskPoll<T> {
    /// Not started: ask to be polled again.
    Wake,
    /// Running: let other threads go first, then ask to be polled again.
    YieldThenWake,
    /// Complete with this result.
    Ready(T),
}

/// A task and its state.
pub struct Task<T, F> {
    result: TaskState<T, F>,
}

impl<T, F> View for Task<T, F> {
    type V = TaskState<T, F>;

    closed spec fn view(&self) -> TaskState<T, F> {
        self.result
    }
}

impl<T, F> Task<T, F> {
    /// A task that will run `fut` once started.
    pub fn new(fut: F) -> (task: Self)
        ensures
            task@ == TaskState::<T, F>::New(fut),
    {
        Task { result: TaskState::New(fut) }
    }

    /// A task that is complete already, with `value`.
    pub fn from_result(value: T) -> (task: Self)
        ensures
            task@ == TaskState::<T, F>::Complete(value),
    {
        Task { result: TaskState::Complete(value) }
    }

    /// Records the result of the task.
    pub fn set_result(&mut self, value: T)
        ensures
            final(self)@ == TaskState::<T, F>::Complete(value),
    {
        self.result = TaskState::Complete(value);
    }

    /// Whether the task was not started yet.
    pub fn is_new(&self) -> (b: bool)
        ensures
            b == (self@ is New),
    {
        self.result.is_new()
    }

    /// Whether the task has its result.
    pub fn is_complete(&self) -> (b: bool)
        ensures
            b == (self@ is Complete),
    {
        self.result.is_complete()
    }

    /// Starts the task: a task not started yet becomes running and its work
    /// goes to `spawn`; a task started before is left as it is.
    pub fn start<S: FnOnce(F)>(&mut self, spawn: S)
        requires
            old(self)@ matches TaskState::New(fut) ==> spawn.requires((fut,)),
        ensures
            final(self)@ == started(old(self)@),
            old(self)@ matches TaskState::New(fut) ==> spawn.ensures((fut,), ()),
    {
        if !self.result.is_new() {
            return ;
        }
        let ts = self.result.replace(TaskState::Running);
        match ts {
            TaskState::New(fut) => spawn(fut),
            _ => {},
        }
    }
}

impl<T: Clone, F> Task<T, F> {
    /// A copy of the result of a complete task.
    pub fn get_result(&self) -> (value: T)
        requires
            self@ is Complete,
        ensures
            cloned(self@->Complete_0, value),
    {
        self.result.unwrap()
    }

    /// What a poller of the task does next: poll again later while it is
    /// not started, let others run first while it runs, take a copy of the
    /// result once it is complete.
    pub fn poll(&self) -> (p: TaskPoll<T>)
        ensures
            match self@ {
                TaskState::New(_) => p is Wake,
                TaskState::Running => p is YieldThenWake,
                TaskState::Complete(v) => p matches TaskPoll::Ready(r) && cloned(v, r),
            },
    {
        match &self.result {
            TaskState::New(_) => TaskPoll::Wake,
            TaskState::Running => TaskPoll::YieldThenWake,
            TaskState::Complete(v) => TaskPoll::Ready(v.clone()),
        }
    }
}

/// A task that is complete already, with `t`.
pub fn from_result<T, F>(t: T) -> (task: Task<T, F>)
    ensures
        task@ == TaskState::<T, F>::Complete(t),
{
    Task { result: TaskState::Complete(t) }
}

/// The task of a computation that returns `item`.
pub fn r_return<T, F>(item: T) -> (task: Task<T, F>)
    ensures
        task@ == TaskState::<T, F>::Complete(item),
{
    Task::from_result(item)
}

/// The task of a computation that does nothing.
pub fn zero<F>() -> (task: Task<(), F>)
    ensures
        task@ == TaskState::<(), F>::Complete(()),
{
    r_return(())
}

/// Builds tasks in task expressions.
pub struct TaskBuilder {}

/// A task builder.
pub fn new() -> (builder: TaskBuilder) {
    TaskBuilder {}
}

impl TaskBuilder {
    /// Runs a task expression: starts its task, as `Task::start` does.
    pub fn run<T, F, S: FnOnce(F)>(&self, task: &mut Task<T, F>, spawn: S)
        requires
            old(task)@ matches TaskState::New(fut) ==> spawn.requires((fut,)),
        ensures
            final(task)@ == started(old(task)@),
            old(task)@ matches TaskState::New(fut) ==> spawn.ensures((fut,), ()),
    {
        task.start(spawn);
    }
}

/// The state of a task after it is started: a task not started yet runs, any
/// other stays as it is.
pub open spec fn started<T, F>(s: TaskState<T, F>) -> TaskState<T, F> {
    match s {
        TaskState::New(_) => TaskState::Running,
        _ => s,
    }
}

/// A task runs at most once: starting it again changes nothing, and a task
/// that has its result keeps it.
pub proof fn law_start_once<T, F>(s: TaskState<T, F>, value: T)
    ensures
        started(started(s)) == started(s),
        started(TaskState::<T, F>::Complete(value)) == TaskState::<T, F>::Complete(value),
        !(started(s) is New),
{
}

/// A task is in exactly one of its three states.
pub proof fn law_one_state<T, F>(s: TaskState<T, F>)
    ensures
        (s is New) as int + (s is Running) as int + (s is Complete) as int == 1,
{
}

} // verus!
