//! The abstract state machine of a lock.
//!
//! A lock's abstract state is an `Option<T>`: `Some(v)` when it is unlocked
//! and guarding the value `v`, `None` while it is held and the value is
//! checked out to the holder's guard.  The predicates below say how each
//! operation moves that state; the operations of [`crate::mutex::Mutex`]
//! ensure them, and the lemmas state the laws that every lock obeys.

use vstd::prelude::*;

verus! {

/// A blocking acquisition: only possible from an unlocked state, it hands the
/// guarded value to the new guard and leaves the lock held.
pub open spec fn acquire_post<T>(pre: Option<T>, post: Option<T>, taken: T) -> bool {
    &&& pre is Some
    &&& taken == pre->0
    &&& post is None
}

/// A release: whatever the state was, the releasing guard's value `put` is
/// reinstated and the lock is unlocked.
pub open spec fn release_post<T>(pre: Option<T>, post: Option<T>, put: T) -> bool {
    post == Some(put)
}

/// A non-blocking acquisition attempt: from an unlocked state it behaves as an
/// acquisition and yields the value; from a held state it changes nothing and
/// yields nothing.
pub open spec fn try_acquire_post<T>(pre: Option<T>, post: Option<T>, taken: Option<T>) -> bool {
    if pre is Some {
        post is None && taken == pre
    } else {
        post == pre && taken is None
    }
}

/// Guard release correctness: a guard obtained by an acquisition and given
/// back unchanged leaves the lock acquirable again, and a following
/// try-acquire succeeds, yielding the value the guard exposed.
pub proof fn lemma_release_then_try_acquire<T>(
    s0: Option<T>,
    s1: Option<T>,
    taken: T,
    s2: Option<T>,
    s3: Option<T>,
    got: Option<T>,
)
    requires
        acquire_post(s0, s1, taken),
        release_post(s1, s2, taken),
        try_acquire_post(s2, s3, got),
    ensures
        s2 == s0,
        got == Some(taken),
        s3 is None,
{
}

/// Exclusivity under contention: while one context holds the lock, a
/// try-acquire by another context yields nothing and leaves the state exactly
/// as it was; once the holder releases, a try-acquire succeeds.
pub proof fn lemma_exclusive_while_held<T>(
    s0: Option<T>,
    s1: Option<T>,
    taken: T,
    s2: Option<T>,
    got_contended: Option<T>,
    s3: Option<T>,
    s4: Option<T>,
    got_after: Option<T>,
)
    requires
        acquire_post(s0, s1, taken),
        try_acquire_post(s1, s2, got_contended),
        release_post(s2, s3, taken),
        try_acquire_post(s3, s4, got_after),
    ensures
        got_contended is None,
        s2 == s1,
        got_after == Some(taken),
        s4 is None,
{
}

/// Data visibility: the value written inside a critical section and handed
/// back by the release is exactly the value the next acquisition observes.
pub proof fn lemma_write_visible_after_release<T>(
    s0: Option<T>,
    s1: Option<T>,
    taken: T,
    written: T,
    s2: Option<T>,
    s3: Option<T>,
    seen: T,
)
    requires
        acquire_post(s0, s1, taken),
        release_post(s1, s2, written),
        acquire_post(s2, s3, seen),
    ensures
        seen == written,
{
}

/// Construction round-trip: a lock constructed around the value `v` hands out
/// exactly `v` to the first acquisition.
pub proof fn lemma_construct_then_acquire<T>(v: T, s1: Option<T>, taken: T)
    requires
        acquire_post(Some(v), s1, taken),
    ensures
        taken == v,
{
}

} // verus!
