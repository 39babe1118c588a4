//! Concurrency limiter: a counting permit pool that bounds how many fetch
//! operations may be in flight at once.

use vstd::prelude::*;

verus! {

/// A fixed-capacity permit pool. `in_flight` counts permits currently held;
/// it never exceeds `capacity`.
#[derive(Clone, Copy, PartialEq, Eq, Structural, Debug)]
pub struct Limiter {
    pub capacity: u32,
    pub in_flight: u32,
}

/// One interaction with the permit pool.
#[derive(Clone, Copy, PartialEq, Eq, Structural, Debug)]
pub enum PermitEvent {
    Acquire,
    Release,
}

impl Limiter {
    /// The pool never hands out more permits than its capacity.
    pub open spec fn wf(self) -> bool {
        self.in_flight <= self.capacity
    }

    pub fn new(capacity: u32) -> (r: Limiter)
        ensures
            r.capacity == capacity,
            r.in_flight == 0,
            r.wf(),
    {
        Limiter { capacity, in_flight: 0 }
    }

    /// Take a permit if one is free. Never blocks; the caller retries later
    /// when the pool is exhausted.
    pub fn try_acquire(&mut self) -> (r: bool)
        requires
            old(self).wf(),
        ensures
            r == (old(self).in_flight < old(self).capacity),
            *final(self) == permit_step(*old(self), PermitEvent::Acquire),
            final(self).wf(),
    {
        if self.in_flight < self.capacity {
            self.in_flight = self.in_flight + 1;
            true
        } else {
            false
        }
    }

    /// Give a permit back. Required on every exit path of the guarded
    /// operation, success or failure alike.
    pub fn release(&mut self)
        requires
            old(self).wf(),
            old(self).in_flight > 0,
        ensures
            *final(self) == permit_step(*old(self), PermitEvent::Release),
            final(self).in_flight == old(self).in_flight - 1,
            final(self).wf(),
    {
        self.in_flight = self.in_flight - 1;
    }
}

/// How one pool interaction changes the pool: an acquire is granted only
/// while a permit is free, a release returns one permit.
pub open spec fn permit_step(l: Limiter, ev: PermitEvent) -> Limiter {
    match ev {
        PermitEvent::Acquire => if l.in_flight < l.capacity {
            Limiter { capacity: l.capacity, in_flight: (l.in_flight + 1) as u32 }
        } else {
            l
        },
        PermitEvent::Release => if l.in_flight > 0 {
            Limiter { capacity: l.capacity, in_flight: (l.in_flight - 1) as u32 }
        } else {
            l
        },
    }
}

/// The pool after a whole sequence of interactions.
pub open spec fn permit_run(l: Limiter, evs: Seq<PermitEvent>) -> Limiter
    decreases evs.len(),
{
    if evs.len() == 0 {
        l
    } else {
        permit_run(permit_step(l, evs[0]), evs.drop_first())
    }
}

/// Law (bounded concurrency): starting from a well-formed pool, no sequence
/// of acquires and releases ever puts more than `capacity` permits in flight,
/// and the capacity itself never changes.
pub proof fn lemma_bounded_in_flight(l: Limiter, evs: Seq<PermitEvent>)
    requires
        l.wf(),
    ensures
        permit_run(l, evs).wf(),
        permit_run(l, evs).capacity == l.capacity,
    decreases evs.len(),
{
    if evs.len() > 0 {
        lemma_bounded_in_flight(permit_step(l, evs[0]), evs.drop_first());
    }
}

} // verus!
