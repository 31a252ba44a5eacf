//! A counter that starts at zero and is advanced one step at a time.
//!
//! The count is read through [`MyStruct::get_value`]. Nothing outside this
//! module can change it: the field and the stepping method are private.
//!
//! A step past `i32::MAX` wraps around to `i32::MIN`.

use vstd::prelude::*;

verus! {

/// The count that follows `count`: one more, and `i32::MIN` after `i32::MAX`.
pub open spec fn successor(count: int) -> int {
    if count == i32::MAX {
        i32::MIN as int
    } else {
        count + 1
    }
}

/// The count reached from `count` by `steps` steps.
pub open spec fn advanced(count: int, steps: nat) -> int
    decreases steps,
{
    if steps == 0 {
        count
    } else {
        successor(advanced(count, (steps - 1) as nat))
    }
}

/// The integer in the range of `i32` that differs from `count` by a multiple
/// of 2^32.
pub open spec fn wrapped(count: int) -> int {
    (count - i32::MIN) % 0x1_0000_0000 + i32::MIN
}

/// A counter over `i32`.
pub struct MyStruct {
    value: i32,
}

impl View for MyStruct {
    type V = int;

    /// The count that the counter holds.
    closed spec fn view(&self) -> int {
        self.value as int
    }
}

impl MyStruct {
    /// A fresh counter, holding zero.
    pub fn new() -> (counter: Self)
        ensures
            counter@ == 0,
    {
        Self { value: 0 }
    }

    /// The count, read without changing the counter.
    pub fn get_value(&self) -> (value: i32)
        ensures
            value == self@,
    {
        self.value
    }

    /// Advances the counter by one step, wrapping around at `i32::MAX`.
    #[allow(dead_code)]
    fn private_method(&mut self)
        ensures
            final(self)@ == successor(old(self)@),
    {
        self.value = self.value.wrapping_add(1);
    }

    /// The count of every counter lies in the range of `i32`.
    pub proof fn lemma_count_in_range(&self)
        ensures
            i32::MIN <= self@ <= i32::MAX,
    {
    }
}

/// A counter that starts at zero holds `steps` after `steps` steps, as long
/// as `steps` does not exceed `i32::MAX`.
pub proof fn lemma_steps_from_zero(steps: nat)
    requires
        steps <= i32::MAX,
    ensures
        advanced(0, steps) == steps,
{
    lemma_steps_without_overflow(0, steps);
}

/// As long as the sum stays within `i32::MAX`, `steps` steps add `steps` to
/// the count.
pub proof fn lemma_steps_without_overflow(count: int, steps: nat)
    requires
        count + steps <= i32::MAX,
    ensures
        advanced(count, steps) == count + steps,
    decreases steps,
{
    if steps > 0 {
        lemma_steps_without_overflow(count, (steps - 1) as nat);
    }
}

/// Whatever the number of steps, a count in the range of `i32` moves to the
/// sum taken modulo 2^32.
pub proof fn lemma_steps_wrap(count: int, steps: nat)
    requires
        i32::MIN <= count <= i32::MAX,
    ensures
        advanced(count, steps) == wrapped(count + steps),
        i32::MIN <= advanced(count, steps) <= i32::MAX,
    decreases steps,
{
    if steps > 0 {
        lemma_steps_wrap(count, (steps - 1) as nat);
    }
}

} // verus!
