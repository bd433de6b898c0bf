use fable_async::thread::{new, Thread};

#[test]
fn start_then_join() {
    let mut t: Thread<u32, u64> = new(5);
    let mut spawned = Vec::new();
    t.start(|f| {
        spawned.push(f);
        100
    });
    assert_eq!(spawned, vec![5]);
    let mut joined = Vec::new();
    t.join(|h| joined.push(h));
    assert_eq!(joined, vec![100]);
    t.join(|h| joined.push(h));
    assert_eq!(joined.len(), 1);
}

#[test]
fn second_start_drops_handle() {
    let mut t: Thread<u32, u64> = new(5);
    t.start(|_| 1);
    let mut calls = 0;
    t.start(|_| {
        calls += 1;
        2
    });
    assert_eq!(calls, 0);
    let mut joined = Vec::new();
    t.join(|h| joined.push(h));
    assert!(joined.is_empty());
}

#[test]
fn join_before_start_empties_thread() {
    let mut t: Thread<u32, u64> = new(5);
    let mut joined = Vec::new();
    t.join(|h| joined.push(h));
    assert!(joined.is_empty());
    let mut spawned = 0;
    t.start(|_| {
        spawned += 1;
        0
    });
    assert_eq!(spawned, 0);
}
