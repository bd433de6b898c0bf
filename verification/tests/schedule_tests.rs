use fable_async::schedule::{
    immediate_poll_step, immediate_start_action, sleep_steps, ImmediateStart, ImmediateStep,
    PollDepth, MAX_POLL_DEPTH,
};

#[test]
fn sleep_is_sliced() {
    assert_eq!(sleep_steps(45), vec![20, 20, 5]);
    assert_eq!(sleep_steps(40), vec![20, 20]);
    assert_eq!(sleep_steps(7), vec![7]);
    assert_eq!(sleep_steps(0), Vec::<u32>::new());
    assert_eq!(sleep_steps(-30), Vec::<u32>::new());
    let big = sleep_steps(1_000_003);
    assert_eq!(big.iter().map(|s| *s as u64).sum::<u64>(), 1_000_003);
    assert!(big.iter().all(|s| *s >= 1 && *s <= 20));
}

#[test]
fn poll_depth_yields_at_limit() {
    let mut d = PollDepth::new();
    assert_eq!(d.depth(), 0);
    for i in 0..MAX_POLL_DEPTH {
        assert!(!d.enter());
        assert_eq!(d.depth(), i + 1);
    }
    assert!(d.enter());
    assert_eq!(d.depth(), 0);
    d.leave();
    assert_eq!(d.depth(), 0);
    assert!(!d.enter());
    assert!(!d.enter());
    d.leave();
    assert_eq!(d.depth(), 1);
}

#[test]
fn immediate_steps() {
    assert!(matches!(immediate_poll_step(true, true), ImmediateStep::Finished));
    assert!(matches!(immediate_poll_step(true, false), ImmediateStep::Finished));
    assert!(matches!(immediate_poll_step(false, true), ImmediateStep::Repoll));
    assert!(matches!(immediate_poll_step(false, false), ImmediateStep::Suspended));
}

#[test]
fn immediate_start() {
    assert!(matches!(immediate_start_action(true, None), ImmediateStart::Skip));
    assert!(matches!(immediate_start_action(true, Some(true)), ImmediateStart::Skip));
    assert!(matches!(immediate_start_action(false, Some(true)), ImmediateStart::Completed));
    assert!(matches!(immediate_start_action(false, Some(false)), ImmediateStart::Spawn));
    assert!(matches!(immediate_start_action(false, None), ImmediateStart::Spawn));
}
