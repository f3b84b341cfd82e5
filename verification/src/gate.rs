//! The concurrency gate: a fixed number of admission slots.

use vstd::prelude::*;

verus! {

/// One occupied admission slot. A permit can be neither copied nor made
/// outside this module, so each one is handed back at most once.
#[derive(Debug)]
pub struct Permit {
    slot: (),
}

/// A counting gate: at most `capacity` permits are out at any time. It also
/// counts every permit it has handed out and taken back.
#[derive(Debug)]
pub struct Gate {
    capacity: usize,
    in_use: usize,
    acquired: usize,
    released: usize,
}

/// Mathematical value of a [`Gate`].
pub struct GateView {
    /// Number of slots, fixed at construction.
    pub capacity: nat,
    /// Permits currently out.
    pub in_use: nat,
    /// Permits handed out so far.
    pub acquired: nat,
    /// Permits taken back so far.
    pub released: nat,
}

impl GateView {
    /// Never more permits out than slots, and every permit handed out is
    /// either still out or was taken back.
    pub open spec fn wf(self) -> bool {
        &&& self.in_use <= self.capacity
        &&& self.acquired == self.released + self.in_use
    }

    /// A gate of `capacity` slots that has handed out nothing yet.
    pub open spec fn fresh(capacity: nat) -> GateView {
        GateView { capacity, in_use: 0, acquired: 0, released: 0 }
    }

    /// Whether a permit can be handed out now.
    pub open spec fn has_free_slot(self) -> bool {
        self.in_use < self.capacity
    }

    /// This gate after one more permit went out.
    pub open spec fn after_acquire(self) -> GateView {
        GateView { in_use: self.in_use + 1, acquired: self.acquired + 1, ..self }
    }

    /// This gate after one permit came back.
    pub open spec fn after_release(self) -> GateView {
        GateView {
            in_use: (self.in_use - 1) as nat,
            released: self.released + 1,
            ..self
        }
    }
}

impl View for Gate {
    type V = GateView;

    closed spec fn view(&self) -> GateView {
        GateView {
            capacity: self.capacity as nat,
            in_use: self.in_use as nat,
            acquired: self.acquired as nat,
            released: self.released as nat,
        }
    }
}

impl Gate {
    /// The well-formedness every operation keeps.
    pub open spec fn wf(&self) -> bool {
        self@.wf()
    }

    /// A gate of `capacity` slots, all free.
    pub fn new(capacity: usize) -> (gate: Gate)
        ensures
            gate.wf(),
            gate@ == GateView::fresh(capacity as nat),
    {
        Gate { capacity, in_use: 0, acquired: 0, released: 0 }
    }

    /// Number of slots.
    pub fn capacity(&self) -> (n: usize)
        ensures
            n == self@.capacity,
    {
        self.capacity
    }

    /// Permits currently out.
    pub fn in_use(&self) -> (n: usize)
        ensures
            n == self@.in_use,
    {
        self.in_use
    }

    /// Slots currently free.
    pub fn available(&self) -> (n: usize)
        requires
            self.wf(),
        ensures
            n == self@.capacity - self@.in_use,
    {
        self.capacity - self.in_use
    }

    /// Permits handed out so far.
    pub fn acquired(&self) -> (n: usize)
        ensures
            n == self@.acquired,
    {
        self.acquired
    }

    /// Permits taken back so far.
    pub fn released(&self) -> (n: usize)
        ensures
            n == self@.released,
    {
        self.released
    }

    /// Takes a slot if one is free. `None` means the caller has to wait for a
    /// release; nothing has changed then.
    pub fn try_acquire(&mut self) -> (permit: Option<Permit>)
        requires
            old(self).wf(),
            old(self)@.acquired < usize::MAX,
        ensures
            final(self).wf(),
            permit.is_some() == old(self)@.has_free_slot(),
            permit.is_some() ==> final(self)@ == old(self)@.after_acquire(),
            permit.is_none() ==> final(self)@ == old(self)@,
    {
        if self.in_use < self.capacity {
            self.in_use = self.in_use + 1;
            self.acquired = self.acquired + 1;
            Some(Permit { slot: () })
        } else {
            None
        }
    }

    /// Takes a permit back and frees its slot.
    pub fn release(&mut self, permit: Permit)
        requires
            old(self).wf(),
            old(self)@.in_use > 0,
        ensures
            final(self).wf(),
            final(self)@ == old(self)@.after_release(),
    {
        self.in_use = self.in_use - 1;
        self.released = self.released + 1;
    }
}

} // verus!
