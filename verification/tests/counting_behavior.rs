use datalock::counting::{increment, increment_contexts, increment_rounds};
use datalock::mutex::Mutex;

#[test]
fn single_increment() {
    let mut m = Mutex::new(10u64);
    increment(&mut m);
    assert_eq!(m.try_inspect().copied(), Some(11));
}

#[test]
fn one_context_many_rounds() {
    let mut m = Mutex::new(0u64);
    increment_rounds(&mut m, 5);
    assert_eq!(m.try_inspect().copied(), Some(5));
    increment_rounds(&mut m, 0);
    assert_eq!(m.try_inspect().copied(), Some(5));
}

#[test]
fn contexts_compose_additively() {
    let mut m = Mutex::new(1u64);
    increment_contexts(&mut m, 3, 4);
    assert_eq!(m.try_inspect().copied(), Some(13));
}

#[test]
fn hundred_contexts_thousand_increments_each() {
    let mut m = Mutex::new(0u64);
    increment_contexts(&mut m, 100, 1000);
    let g = m.lock();
    assert_eq!(*g.read(), 100_000);
    m.unlock(g);
}
