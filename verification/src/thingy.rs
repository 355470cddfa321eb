//! The wrapped stateful object.
//!
//! A `Thingy` is the plain, non-thread-safe value that the worker runtime
//! moves onto its dedicated thread. After construction it is touched by
//! exactly one thread for its entire lifetime, so it needs no internal
//! synchronization: its mutating operations simply take `&mut self`.

use vstd::prelude::*;

verus! {

/// Mathematical state of a [`Thingy`]: the two counters it holds.
pub ghost struct ThingyView {
    pub a: int,
    pub b: int,
}

/// The state a freshly constructed [`Thingy`] is in: the constructor
/// increments the seed for `a` by one and zeroes `b`.
pub open spec fn constructed(seed: int) -> ThingyView {
    ThingyView { a: seed + 1, b: 0 }
}

/// A stateful value with two integer fields, exposing a mix of
/// fire-and-forget operations (`plus_one_a`, `inc_a`), read-only and
/// value-returning operations (`get_a`, `set_and_get_a`, `set_and_get_b`),
/// and one operation whose internal check always fails (`assert_false`).
#[derive(Debug)]
pub struct Thingy {
    a: i32,
    b: i32,
}

impl View for Thingy {
    type V = ThingyView;

    closed spec fn view(&self) -> ThingyView {
        ThingyView { a: self.a as int, b: self.b as int }
    }
}

impl Thingy {
    /// Constructs the object from a seed for `a`, incrementing it once.
    pub fn new(a: i32) -> (t: Thingy)
        requires
            a < i32::MAX,
        ensures
            t@ == constructed(a as int),
    {
        let mut a = a;
        Self::plus_one_internal(&mut a);
        Thingy { a, b: 0 }
    }

    /// An operation whose internal check never holds. The result reports
    /// whether the check passed; it never does, and the worker loop treats
    /// the failure as fatal to the actor.
    pub fn assert_false(&self) -> (ok: bool)
        ensures
            !ok,
    {
        false
    }

    /// Increments `a` by one.
    pub fn plus_one_a(&mut self)
        requires
            old(self)@.a < i32::MAX,
        ensures
            final(self)@ == (ThingyView { a: old(self)@.a + 1, ..old(self)@ }),
    {
        Self::plus_one_internal(&mut self.a);
    }

    /// Adds `i` to `a`.
    pub fn inc_a(&mut self, i: i32)
        requires
            i32::MIN <= old(self)@.a + i <= i32::MAX,
        ensures
            final(self)@ == (ThingyView { a: old(self)@.a + i, ..old(self)@ }),
    {
        self.a = self.a + i;
    }

    fn plus_one_internal(a: &mut i32)
        requires
            *old(a) < i32::MAX,
        ensures
            *final(a) == *old(a) + 1,
    {
        *a = *a + 1;
    }

    /// Reads `a`.
    pub fn get_a(&self) -> (r: i32)
        ensures
            r == self@.a,
    {
        self.a
    }

    /// Sets `a` to `i`, then returns the value just set.
    pub fn set_and_get_a(&mut self, i: i32) -> (r: i32)
        ensures
            final(self)@ == (ThingyView { a: i as int, ..old(self)@ }),
            r == i,
    {
        self.a = i;
        self.a
    }

    /// Sets `b` to `i`, then returns the value just set.
    pub fn set_and_get_b(&mut self, i: i32) -> (r: i32)
        ensures
            final(self)@ == (ThingyView { b: i as int, ..old(self)@ }),
            r == i,
    {
        self.b = i;
        self.b
    }
}

} // verus!
