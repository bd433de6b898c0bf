use fable_async::task::{from_result, new, r_return, zero, Task, TaskPoll, TaskState};

#[test]
fn new_task_is_new_until_started() {
    let mut task: Task<u32, &str> = Task::new("work");
    assert!(task.is_new());
    assert!(!task.is_complete());
    assert!(matches!(task.poll(), TaskPoll::Wake));
    let mut spawned = Vec::new();
    task.start(|f| spawned.push(f));
    assert_eq!(spawned, vec!["work"]);
    assert!(!task.is_new());
    assert!(!task.is_complete());
    assert!(matches!(task.poll(), TaskPoll::YieldThenWake));
    task.start(|f| spawned.push(f));
    assert_eq!(spawned.len(), 1);
    task.set_result(7);
    assert!(task.is_complete());
    assert_eq!(task.get_result(), 7);
    assert!(matches!(task.poll(), TaskPoll::Ready(7)));
}

#[test]
fn completed_task_is_not_started_again() {
    let mut task: Task<u32, &str> = Task::from_result(5);
    let mut spawned = 0;
    task.start(|_| spawned += 1);
    assert_eq!(spawned, 0);
    assert_eq!(task.get_result(), 5);
}

#[test]
fn builders_make_complete_tasks() {
    let a: Task<u32, ()> = from_result(1);
    let b: Task<u32, ()> = r_return(2);
    let c: Task<(), ()> = zero();
    assert_eq!(a.get_result(), 1);
    assert_eq!(b.get_result(), 2);
    assert!(c.is_complete());
}

#[test]
fn task_builder_runs_task() {
    let builder = new();
    let mut task: Task<u32, u8> = Task::new(3);
    let mut spawned = Vec::new();
    builder.run(&mut task, |f| spawned.push(f));
    assert_eq!(spawned, vec![3]);
    assert!(!task.is_new());
}

#[test]
fn task_state_queries() {
    let mut s: TaskState<u32, u8> = TaskState::New(1);
    assert!(s.is_new() && !s.is_running() && !s.is_complete());
    let prev = s.replace(TaskState::Running);
    assert!(prev.is_new());
    assert!(s.is_running());
    s.replace(TaskState::Complete(9));
    assert!(s.is_complete());
    assert_eq!(s.unwrap(), 9);
}
