use vstd::prelude::*;

verus! {

/// One unit of the concurrency budget, held by one run until it is released.
#[derive(Debug)]
pub struct Permit {
    _private: (),
}

/// The counting state of the pool.
pub struct PoolView {
    pub capacity: nat,
    pub outstanding: nat,
}

/// The state after one attempt to take a permit, and whether it succeeded.
pub open spec fn acquire_step(p: PoolView) -> (PoolView, bool) {
    if p.outstanding < p.capacity {
        (PoolView { outstanding: p.outstanding + 1, ..p }, true)
    } else {
        (p, false)
    }
}

/// The state after `n` attempts without any release.
pub open spec fn after_acquires(p: PoolView, n: nat) -> PoolView
    decreases n,
{
    if n == 0 {
        p
    } else {
        acquire_step(after_acquires(p, (n - 1) as nat)).0
    }
}

/// A pool of run permits with a fixed ceiling. Taking a permit never waits:
/// once the ceiling is reached, attempts fail at once.
pub struct PermitPool {
    capacity: usize,
    outstanding: usize,
}

impl View for PermitPool {
    type V = PoolView;

    closed spec fn view(&self) -> PoolView {
        PoolView { capacity: self.capacity as nat, outstanding: self.outstanding as nat }
    }
}

impl PermitPool {
    /// Outstanding permits never exceed the ceiling.
    pub closed spec fn wf(&self) -> bool {
        self.outstanding <= self.capacity
    }

    pub fn new(capacity: usize) -> (r: PermitPool)
        ensures
            r.wf(),
            r@ == (PoolView { capacity: capacity as nat, outstanding: 0 }),
    {
        PermitPool { capacity, outstanding: 0 }
    }

    /// How many permits can still be taken.
    pub fn available(&self) -> (r: usize)
        requires
            self.wf(),
        ensures
            r == self@.capacity - self@.outstanding,
    {
        self.capacity - self.outstanding
    }

    /// Takes a permit if one is free; fails immediately otherwise.
    pub fn try_acquire(&mut self) -> (r: Option<Permit>)
        requires
            old(self).wf(),
        ensures
            final(self).wf(),
            (final(self)@, r is Some) == acquire_step(old(self)@),
    {
        if self.outstanding < self.capacity {
            self.outstanding = self.outstanding + 1;
            Some(Permit { _private: () })
        } else {
            None
        }
    }

    /// Returns a permit to the pool.
    pub fn release(&mut self, permit: Permit)
        requires
            old(self).wf(),
        ensures
            final(self).wf(),
            final(self)@.capacity == old(self)@.capacity,
            final(self)@.outstanding == if old(self)@.outstanding > 0 {
                (old(self)@.outstanding - 1) as nat
            } else {
                0
            },
    {
        let _ = permit;
        if self.outstanding > 0 {
            self.outstanding = self.outstanding - 1;
        }
    }
}

/// Admission never lets more runs in than the ceiling: starting from a pool
/// with no permits out, after any number of attempts without a release at
/// most `capacity` permits are out, and every attempt beyond the ceiling is
/// refused without changing the pool.
pub proof fn lemma_excess_runs_rejected(capacity: nat, n: nat)
    ensures
        after_acquires(PoolView { capacity, outstanding: 0 }, n).outstanding == if n < capacity {
            n
        } else {
            capacity
        },
        after_acquires(PoolView { capacity, outstanding: 0 }, n).capacity == capacity,
        n >= capacity ==> !acquire_step(after_acquires(PoolView { capacity, outstanding: 0 }, n)).1,
        n >= capacity ==> acquire_step(after_acquires(PoolView { capacity, outstanding: 0 }, n)).0
            == after_acquires(PoolView { capacity, outstanding: 0 }, n),
    decreases n,
{
    if n > 0 {
        lemma_excess_runs_rejected(capacity, (n - 1) as nat);
    }
}

} // verus!
