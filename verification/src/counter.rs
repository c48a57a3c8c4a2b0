use vstd::prelude::*;

verus! {

/// One wrapping increment step on a value already in `i32` range.
pub open spec fn wrap_inc(v: int) -> int {
    if v == i32::MAX { i32::MIN as int } else { v + 1 }
}

/// One wrapping decrement step on a value already in `i32` range.
pub open spec fn wrap_dec(v: int) -> int {
    if v == i32::MIN { i32::MAX as int } else { v - 1 }
}

/// The counter store: one signed integer, starting at zero.
/// Increment and decrement wrap around at the ends of the `i32` range.
pub struct Counter {
    value: i32,
}

impl View for Counter {
    type V = int;

    closed spec fn view(&self) -> int {
        self.value as int
    }
}

impl Counter {
    pub fn new() -> (c: Counter)
        ensures
            c@ == 0,
    {
        Counter { value: 0 }
    }

    /// Adds one to the stored value, wrapping on overflow, and returns the
    /// new value.
    pub fn increment(&mut self) -> (r: i32)
        ensures
            final(self)@ == wrap_inc(old(self)@),
            r as int == final(self)@,
    {
        self.value = self.value.wrapping_add(1);
        self.value
    }

    /// Subtracts one from the stored value, wrapping on underflow, and
    /// returns the new value.
    pub fn decrement(&mut self) -> (r: i32)
        ensures
            final(self)@ == wrap_dec(old(self)@),
            r as int == final(self)@,
    {
        self.value = self.value.wrapping_sub(1);
        self.value
    }

    /// Returns the current value without mutating it.
    pub fn get_counter(&self) -> (r: i32)
        ensures
            r as int == self@,
    {
        self.value
    }
}

} // verus!
