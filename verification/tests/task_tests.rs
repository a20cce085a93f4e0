use my_os::task::{Countdown, Resumption, Task, TaskID, TaskIdCounter};
use my_os::executor::TaskWaker;

#[test]
fn ids_start_at_zero_and_increase() {
    let mut ctr = TaskIdCounter::new();
    let a = TaskID::new(&mut ctr);
    let b = TaskID::new(&mut ctr);
    let c = TaskID::new(&mut ctr);
    assert_eq!(a, TaskID(0));
    assert_eq!(b, TaskID(1));
    assert_eq!(c, TaskID(2));
}

#[test]
fn ids_unique_over_many_draws() {
    let mut ctr = TaskIdCounter::new();
    let mut seen: Vec<u64> = Vec::new();
    for _ in 0..200 {
        let id = TaskID::new(&mut ctr);
        assert!(!seen.contains(&id.0));
        if let Some(&last) = seen.last() {
            assert!(last < id.0);
        }
        seen.push(id.0);
    }
}

#[test]
fn task_new_takes_fresh_id() {
    let mut ctr = TaskIdCounter::new();
    let t1 = Task::new(&mut ctr, Countdown { remaining: 0 });
    let t2 = Task::new(&mut ctr, Countdown { remaining: 5 });
    assert_eq!(t1.id, TaskID(0));
    assert_eq!(t2.id, TaskID(1));
    assert_eq!(t2.computation.remaining, 5);
}

#[test]
fn countdown_suspends_then_completes() {
    let mut ctr = TaskIdCounter::new();
    let mut t = Task::new(&mut ctr, Countdown { remaining: 3 });
    let waker = TaskWaker::new(t.id);
    assert_eq!(t.poll(&waker), Resumption::Suspended);
    assert_eq!(t.computation.remaining, 2);
    assert_eq!(t.poll(&waker), Resumption::Suspended);
    assert_eq!(t.poll(&waker), Resumption::Suspended);
    assert_eq!(t.computation.remaining, 0);
    assert_eq!(t.poll(&waker), Resumption::Complete);
    // Completing is stable: further polls still report completion.
    assert_eq!(t.poll(&waker), Resumption::Complete);
}

#[test]
fn immediate_completion() {
    let mut ctr = TaskIdCounter::new();
    let mut t = Task::new(&mut ctr, Countdown { remaining: 0 });
    let waker = TaskWaker::new(t.id);
    assert_eq!(t.poll(&waker), Resumption::Complete);
}
