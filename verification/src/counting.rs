//! Mutual exclusion, exercised on a protected counter.
//!
//! Each increment here is one complete critical section — acquire, read, add
//! one, write, release — so increments never interleave at a finer grain.
//! That is the mutual-exclusion law in executable form: however the work is
//! divided into contexts, `n` contexts of `k` whole increment sections each
//! always finish at exactly `n * k` above the starting value, deterministically.

use vstd::prelude::*;

use crate::mutex::Mutex;

verus! {

/// One complete critical section that increments the protected counter.
pub fn increment(m: &mut Mutex<u64>)
    requires
        old(m).is_unlocked(),
        old(m).value() < u64::MAX,
    ensures
        final(m).is_unlocked(),
        final(m).value() == old(m).value() + 1,
        final(m).spec_label() == old(m).spec_label(),
{
    let mut g = m.lock();
    let v: u64 = *g.read();
    *g.get_mut() = v + 1;
    m.unlock(g);
}

/// One context's work: `rounds` whole increment sections in a row.
pub fn increment_rounds(m: &mut Mutex<u64>, rounds: u64)
    requires
        old(m).is_unlocked(),
        old(m).value() + rounds <= u64::MAX,
    ensures
        final(m).is_unlocked(),
        final(m).value() == old(m).value() + rounds,
        final(m).spec_label() == old(m).spec_label(),
{
    let ghost v0: u64 = m.value();
    let ghost lab = m.spec_label();
    let mut i: u64 = 0;
    while i < rounds
        invariant
            i <= rounds,
            m.is_unlocked(),
            m.value() == v0 + i,
            v0 + rounds <= u64::MAX,
            m.spec_label() == lab,
        decreases rounds - i,
    {
        increment(m);
        i = i + 1;
    }
}

/// The whole workload: `contexts` contexts, each performing `per_context`
/// whole increment sections.  Because every section excludes every other, the
/// counter deterministically ends exactly `contexts * per_context` above
/// where it started, whatever order the sections ran in.
pub fn increment_contexts(m: &mut Mutex<u64>, contexts: u64, per_context: u64)
    requires
        old(m).is_unlocked(),
        old(m).value() + contexts * per_context <= u64::MAX,
    ensures
        final(m).is_unlocked(),
        final(m).value() == old(m).value() + contexts * per_context,
        final(m).spec_label() == old(m).spec_label(),
{
    let ghost v0: u64 = m.value();
    let ghost lab = m.spec_label();
    let mut c: u64 = 0;
    while c < contexts
        invariant
            c <= contexts,
            m.is_unlocked(),
            m.value() == v0 + c * per_context,
            v0 + contexts * per_context <= u64::MAX,
            m.spec_label() == lab,
        decreases contexts - c,
    {
        proof {
            assert((c + 1) * per_context == c * per_context + per_context
                && (c + 1) * per_context <= contexts * per_context) by (nonlinear_arith)
                requires
                    c < contexts,
            ;
        }
        increment_rounds(m, per_context);
        c = c + 1;
    }
}

} // verus!
