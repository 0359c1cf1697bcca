//! Bounded-capacity permit pool: a worker must hold a permit while a request
//! is in flight, and at most `capacity` permits are ever out at once. A
//! permit is an owned token, so a release without a matching acquire cannot
//! be written, and releasing twice would need a permit that no longer exists.

use vstd::prelude::*;

verus! {

/// An owned capacity token. It cannot be copied or cloned, and only this
/// module can mint one, so each permit is released at most once.
pub struct Permit {
    seal: (),
}

/// A permit pool of fixed capacity.
#[derive(Clone, Copy, Debug)]
pub struct ConcurrencyGate {
    capacity: u16,
    available: u16,
}

impl ConcurrencyGate {
    pub closed spec fn capacity(self) -> int {
        self.capacity as int
    }

    pub closed spec fn available(self) -> int {
        self.available as int
    }

    /// Permits currently held by workers.
    pub open spec fn outstanding(self) -> int {
        self.capacity() - self.available()
    }

    pub open spec fn wf(self) -> bool {
        self.available() <= self.capacity()
    }

    /// A fresh gate has all of its permits available.
    pub fn new(capacity: u16) -> (g: ConcurrencyGate)
        ensures
            g.wf(),
            g.capacity() == capacity,
            g.available() == capacity,
    {
        ConcurrencyGate { capacity, available: capacity }
    }

    pub fn capacity_val(&self) -> (r: u16)
        ensures
            r == self.capacity(),
    {
        self.capacity
    }

    pub fn available_val(&self) -> (r: u16)
        ensures
            r == self.available(),
    {
        self.available
    }

    /// Hand out a permit if capacity is left. A caller that must block
    /// retries until a permit is available; blocking itself is scheduling,
    /// not accounting, and stays with the caller.
    pub fn try_acquire(&mut self) -> (r: Option<Permit>)
        requires
            old(self).wf(),
        ensures
            final(self).wf(),
            final(self).capacity() == old(self).capacity(),
            match r {
                Some(_) => old(self).available() > 0 && final(self).available() == old(
                    self,
                ).available() - 1,
                None => old(self).available() == 0 && *final(self) == *old(self),
            },
    {
        if self.available > 0 {
            self.available = self.available - 1;
            Some(Permit { seal: () })
        } else {
            None
        }
    }

    /// Take a permit back. Consumes the permit, so the same permit cannot be
    /// returned twice.
    pub fn release(&mut self, permit: Permit)
        requires
            old(self).wf(),
            old(self).outstanding() > 0,
        ensures
            final(self).wf(),
            final(self).capacity() == old(self).capacity(),
            final(self).available() == old(self).available() + 1,
    {
        let _ = permit;
        self.available = self.available + 1;
    }
}

} // verus!
