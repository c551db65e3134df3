use datalock::mutex::Mutex;

#[test]
fn construction_round_trip() {
    let mut m = Mutex::new(5u64);
    let g = m.lock();
    assert_eq!(*g.read(), 5);
    m.unlock(g);
}

#[test]
fn independent_locks_do_not_alias() {
    let mut m1 = Mutex::new(1u64);
    let mut m2 = Mutex::new(2u64);
    let mut g1 = m1.lock();
    *g1.get_mut() = 10;
    m1.unlock(g1);
    let g2 = m2.lock();
    assert_eq!(*g2.read(), 2);
    m2.unlock(g2);
    let g1 = m1.lock();
    assert_eq!(*g1.read(), 10);
    m1.unlock(g1);
}

#[test]
fn guard_release_leaves_lock_acquirable() {
    let mut m = Mutex::new(3u32);
    let g = m.lock();
    m.unlock(g);
    let r = m.try_lock();
    assert!(r.is_some());
    let g = r.unwrap();
    assert_eq!(*g.read(), 3);
    m.unlock(g);
}

#[test]
fn try_lock_fails_while_held_and_succeeds_after_release() {
    let mut m = Mutex::new(7u64);
    let g = m.lock();
    assert!(m.try_lock().is_none());
    m.unlock(g);
    let r = m.try_lock();
    assert!(r.is_some());
    m.unlock(r.unwrap());
}

#[test]
fn write_is_visible_to_next_acquisition() {
    let mut m = Mutex::new(0u64);
    let mut g = m.lock();
    *g.get_mut() = 42;
    m.unlock(g);
    let g = m.lock();
    assert_eq!(*g.read(), 42);
    m.unlock(g);
}

#[test]
fn string_lock_contention_scenario() {
    let mut m = Mutex::new(String::from("a"));
    let g = m.lock();
    assert!(m.try_lock().is_none());
    m.unlock(g);
    let r = m.try_lock();
    assert!(r.is_some());
    let g = r.unwrap();
    assert_eq!(g.read().as_str(), "a");
    m.unlock(g);
}

#[test]
fn try_inspect_sees_value_only_when_free() {
    let mut m = Mutex::new(9u64);
    assert_eq!(m.try_inspect().copied(), Some(9));
    let g = m.lock();
    assert!(m.try_inspect().is_none());
    m.unlock(g);
    assert_eq!(m.try_inspect().copied(), Some(9));
}

#[test]
fn label_defaults_to_none() {
    let m = Mutex::new(0u8);
    assert!(m.label().is_none());
}

#[test]
fn label_is_kept_as_given() {
    let mut m = Mutex::new_with_label(1u8, String::from("frame-pool"));
    assert_eq!(m.label().as_deref(), Some("frame-pool"));
    let g = m.lock();
    assert_eq!(m.label().as_deref(), Some("frame-pool"));
    m.unlock(g);
    assert_eq!(m.label().as_deref(), Some("frame-pool"));
}

#[test]
fn from_is_equivalent_to_new() {
    let mut m = Mutex::from(7u64);
    assert!(m.label().is_none());
    let g = m.lock();
    assert_eq!(*g.read(), 7);
    m.unlock(g);
}

#[test]
fn guard_exposes_latest_write() {
    let mut m = Mutex::new(0u64);
    let mut g = m.lock();
    *g.get_mut() = 1;
    *g.get_mut() = 2;
    assert_eq!(*g.read(), 2);
    m.unlock(g);
    assert_eq!(m.try_inspect().copied(), Some(2));
}
