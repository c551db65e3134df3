//! The lock itself and its guard.
//!
//! [`Mutex`] owns the protected value; while the lock is unlocked the value
//! sits inside the `Mutex`, and an acquisition checks it out into the
//! [`MutexGuard`] it returns.  The guard is therefore a running proof of
//! exclusive ownership: only its holder can reach the value, and giving the
//! guard back through [`Mutex::unlock`] is the one path by which the lock is
//! released.  The guard is neither `Copy` nor `Clone`, and `unlock` consumes
//! it, so a given acquisition is released at most once.

use vstd::prelude::*;

use crate::state::{acquire_post, release_post, try_acquire_post};

verus! {

/// A mutual-exclusion lock paired with the data it protects.
///
/// Abstractly (see [`crate::state`]) the lock is an `Option<T>`: `Some(v)`
/// while it is unlocked and guarding `v`, `None` while it is held.  An
/// optional diagnostic label, fixed at construction, identifies the lock for
/// introspection and has no behavioural effect.
pub struct Mutex<T> {
    data: Option<T>,
    label: Option<String>,
}

/// A scoped acquisition handle: proof that its holder owns the lock it was
/// taken from, and the only access path to the protected value.
pub struct MutexGuard<T> {
    data: T,
}

impl<T> View for Mutex<T> {
    type V = Option<T>;

    /// The abstract state: `Some(value)` when unlocked, `None` when held.
    closed spec fn view(&self) -> Option<T> {
        self.data
    }
}

impl<T> View for MutexGuard<T> {
    type V = T;

    /// The protected value the guard exposes.
    closed spec fn view(&self) -> T {
        self.data
    }
}

impl<T> Mutex<T> {
    /// The lock is held: the protected value is checked out to a guard.
    pub open spec fn is_locked(&self) -> bool {
        self@ is None
    }

    /// The lock is free to acquire.
    pub open spec fn is_unlocked(&self) -> bool {
        self@ is Some
    }

    /// The protected value; meaningful while the lock is unlocked.
    pub open spec fn value(&self) -> T
        recommends
            self.is_unlocked(),
    {
        self@->0
    }

    /// The diagnostic label given at construction, if any.
    pub closed spec fn spec_label(&self) -> Option<String> {
        self.label
    }

    /// The diagnostic label as a sequence of characters; empty when none was
    /// given.
    pub open spec fn label_view(&self) -> Seq<char> {
        match self.spec_label() {
            Some(s) => s@,
            None => Seq::<char>::empty(),
        }
    }

    /// The lock that construction around `t` yields: unlocked, guarding `t`,
    /// with the default (empty) diagnostic label.
    pub closed spec fn spec_new(t: T) -> Mutex<T> {
        Mutex { data: Some(t), label: None }
    }

    /// Creates a new lock in an unlocked state, guarding `t`, with the
    /// default (empty) diagnostic label.
    pub fn new(t: T) -> (m: Mutex<T>)
        ensures
            m == Mutex::spec_new(t),
            m.is_unlocked(),
            m.value() == t,
            m.spec_label() == None::<String>,
            m.label_view() == Seq::<char>::empty(),
    {
        Mutex { data: Some(t), label: None }
    }

    /// Creates a new unlocked lock guarding `t`, carrying `label` as its
    /// diagnostic identifier.  The label only serves introspection; callers
    /// wanting their locks told apart supply a distinct, stable label each.
    pub fn new_with_label(t: T, label: String) -> (m: Mutex<T>)
        ensures
            m.is_unlocked(),
            m.value() == t,
            m.spec_label() == Some(label),
            m.label_view() == label@,
    {
        Mutex { data: Some(t), label: Some(label) }
    }

    /// Acquires the lock, returning the guard that exposes the protected
    /// value.
    ///
    /// Acquisition only completes once the lock is free; a context that
    /// already holds this lock and acquires again would deadlock against
    /// itself, so that call is excluded by precondition rather than left to
    /// block forever.
    pub fn lock(&mut self) -> (g: MutexGuard<T>)
        requires
            old(self).is_unlocked(),
        ensures
            acquire_post(old(self)@, final(self)@, g@),
            final(self).is_locked(),
            g@ == old(self).value(),
            final(self).spec_label() == old(self).spec_label(),
    {
        let v = self.data.take().unwrap();
        MutexGuard { data: v }
    }

    /// Attempts to acquire the lock without blocking: returns a guard when
    /// the lock was free, and nothing — leaving the lock exactly as it was —
    /// when it was already held.  All-or-nothing: a failed attempt never
    /// leaves the lock in a partially acquired state.
    pub fn try_lock(&mut self) -> (r: Option<MutexGuard<T>>)
        ensures
            try_acquire_post(old(self)@, final(self)@, guard_view(r)),
            old(self).is_unlocked() ==> {
                &&& r is Some
                &&& r->0@ == old(self).value()
                &&& final(self).is_locked()
            },
            old(self).is_locked() ==> r is None && *final(self) == *old(self),
            final(self).spec_label() == old(self).spec_label(),
    {
        match self.data.take() {
            Some(v) => Some(MutexGuard { data: v }),
            None => None,
        }
    }

    /// Releases the lock, reinstating the value the guard exposes — the
    /// protected value as last written through the guard.  Consuming the
    /// guard here is what makes release happen exactly once per acquisition.
    ///
    /// Releasing a lock that is not held is excluded by precondition; the
    /// guard an acquisition checked out of this lock is the natural witness
    /// that it is held.
    pub fn unlock(&mut self, g: MutexGuard<T>)
        requires
            old(self).is_locked(),
        ensures
            release_post(old(self)@, final(self)@, g@),
            final(self).is_unlocked(),
            final(self).value() == g@,
            final(self).spec_label() == old(self).spec_label(),
    {
        let MutexGuard { data } = g;
        self.data = Some(data);
    }

    /// A diagnostic peek: yields the protected value when the lock happens to
    /// be free, and nothing when it is currently held.  Never blocks and
    /// never retains the lock.
    pub fn try_inspect(&self) -> (r: Option<&T>)
        ensures
            r is Some <==> self.is_unlocked(),
            r is Some ==> *(r->0) == self.value(),
    {
        self.data.as_ref()
    }

    /// The diagnostic label given at construction, if any.
    pub fn label(&self) -> (r: &Option<String>)
        ensures
            *r == self.spec_label(),
    {
        &self.label
    }
}

/// What construction yields, observably: the lock [`Mutex::spec_new`]
/// describes is unlocked, guards exactly the value it was built around, and
/// carries the default (empty) diagnostic label.
pub broadcast proof fn lemma_spec_new<T>(t: T)
    ensures
        (#[trigger] Mutex::<T>::spec_new(t)).is_unlocked(),
        Mutex::<T>::spec_new(t).value() == t,
        Mutex::<T>::spec_new(t).spec_label() == None::<String>,
{
}

/// The value exposed by an optional guard, as an optional value: what a
/// non-blocking acquisition attempt yielded.
pub open spec fn guard_view<T>(r: Option<MutexGuard<T>>) -> Option<T> {
    match r {
        Some(g) => Some(g@),
        None => None,
    }
}

impl<T> MutexGuard<T> {
    /// Read access to the protected value.  Safe because the guard's
    /// existence proves exclusive ownership of the lock it came from.
    pub fn read(&self) -> (r: &T)
        ensures
            *r == self@,
    {
        &self.data
    }

    /// Write access to the protected value; what the caller leaves behind the
    /// returned reference is what the guard exposes from then on, and what a
    /// release reinstates.
    pub fn get_mut(&mut self) -> (r: &mut T)
        ensures
            *r == old(self)@,
            final(self)@ == *final(r),
    {
        &mut self.data
    }
}

impl<T> From<T> for Mutex<T> {
    /// Creates a new lock in an unlocked state ready for use; equivalent to
    /// [`Mutex::new`].
    fn from(t: T) -> (m: Mutex<T>) {
        Mutex::new(t)
    }
}

impl<T> vstd::std_specs::convert::FromSpecImpl<T> for Mutex<T> {
    open spec fn obeys_from_spec() -> bool {
        true
    }

    open spec fn from_spec(t: T) -> Mutex<T> {
        Mutex::spec_new(t)
    }
}

} // verus!
