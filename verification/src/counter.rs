//! The shared counter: one unsigned 32-bit value, starting at zero, changed
//! only by applying increments. Increments saturate at `u32::MAX`: the value
//! never wraps and an increment never fails. Each counter carries a ghost
//! history of the increments applied to it, so that contracts can relate
//! every observed value to the sequence of committed writes.

use vstd::prelude::*;

verus! {

/// The value a counter holds after one increment of `d` applied at value `a`:
/// the sum, saturated at `u32::MAX`.
pub open spec fn sat_add(a: u32, d: u32) -> u32 {
    if a + d > u32::MAX { u32::MAX } else { (a + d) as u32 }
}

/// The value a counter holds after the increments `deltas`, oldest first,
/// have been applied starting from zero.
pub open spec fn apply_deltas(deltas: Seq<u32>) -> u32
    decreases deltas.len(),
{
    if deltas.len() == 0 {
        0u32
    } else {
        sat_add(apply_deltas(deltas.drop_last()), deltas.last())
    }
}

/// The shared counter state. The concrete value is kept in step with the
/// ghost history of applied increments: `wf()` says the value is exactly
/// the fold of the history, and every constructor and method preserves it.
pub struct Counter {
    value: u32,
    history: Ghost<Seq<u32>>,
}

impl Counter {
    /// The value a reader observes now.
    pub closed spec fn current(&self) -> u32 {
        self.value
    }

    /// The increments committed so far, oldest first.
    pub closed spec fn history(&self) -> Seq<u32> {
        self.history@
    }

    /// The counter's invariant: the observable value is the fold of the
    /// committed increments.
    pub open spec fn wf(&self) -> bool {
        self.current() == apply_deltas(self.history())
    }

    /// A fresh counter: value zero, no increments committed.
    pub fn new() -> (r: Counter)
        ensures
            r.wf(),
            r.current() == 0,
            r.history() == Seq::<u32>::empty(),
    {
        Counter { value: 0, history: Ghost(Seq::empty()) }
    }

    /// Read the current value. Reading commits nothing.
    pub fn read(&self) -> (r: u32)
        ensures
            r == self.current(),
    {
        self.value
    }

    /// Apply one increment and return the value the same writer then
    /// observes: the saturating sum of the old value and `delta`.
    pub fn write(&mut self, delta: u32) -> (r: u32)
        ensures
            final(self).current() == sat_add(old(self).current(), delta),
            final(self).history() == old(self).history().push(delta),
            r == final(self).current(),
            old(self).wf() ==> final(self).wf(),
    {
        let new_value = if self.value <= u32::MAX - delta {
            self.value + delta
        } else {
            u32::MAX
        };
        self.value = new_value;
        proof {
            self.history@ = self.history@.push(delta);
            assert(self.history@.drop_last() =~= old(self).history());
        }
        new_value
    }
}

/// The value returned by a write of `d` on a counter with committed history
/// `h` — and the value any subsequent read on the same path observes — is the
/// saturating sum of the value before the write and `d`.
pub proof fn lemma_write_then_read(h: Seq<u32>, d: u32)
    ensures
        apply_deltas(h.push(d)) == sat_add(apply_deltas(h), d),
{
    assert(h.push(d).drop_last() =~= h);
}

/// Every read of a well-formed counter returns a prefix sum of the applied
/// increments: whatever increments `later` are still to come, the value
/// observed now is the fold of a prefix of the whole history.
pub proof fn lemma_read_is_prefix_sum(c: &Counter, later: Seq<u32>)
    requires
        c.wf(),
    ensures
        exists|k: int|
            0 <= k <= (c.history() + later).len() && c.current() == apply_deltas(
                (c.history() + later).take(k),
            ),
{
    let k = c.history().len() as int;
    assert((c.history() + later).take(k) =~= c.history());
    assert(0 <= k <= (c.history() + later).len() && c.current() == apply_deltas(
        (c.history() + later).take(k),
    ));
}

} // verus!
