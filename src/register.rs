//! Word-sized register shapes: a full register with set / clear / toggle
//! aliases, a read-only register, and a read-and-clear register.

use vstd::prelude::*;

verus! {

/// Whether bit `n` of `v` is set.
pub open spec fn bit_of(v: u32, n: u32) -> bool {
    v & (1u32 << n) != 0
}

/// A read/write register followed by its three write-only aliases.
/// A word written to `set` ORs into the value, one written to `clear` clears
/// those bits, one written to `toggle` flips them. No access reads the value
/// and writes it back: the aliases make every update a single store.
#[derive(Clone, Copy)]
pub struct Full {
    val: u32,
    set: u32,
    clear: u32,
    toggle: u32,
}

impl Full {
    /// The value held by the register.
    pub closed spec fn value(self) -> u32 {
        self.val
    }

    /// The last word stored into the set alias.
    pub closed spec fn set_alias(self) -> u32 {
        self.set
    }

    /// The last word stored into the clear alias.
    pub closed spec fn clear_alias(self) -> u32 {
        self.clear
    }

    /// The last word stored into the toggle alias.
    pub closed spec fn toggle_alias(self) -> u32 {
        self.toggle
    }

    /// The register and its aliases all hold zero.
    pub open spec fn is_zero(self) -> bool {
        self.value() == 0 && self.set_alias() == 0 && self.clear_alias() == 0
            && self.toggle_alias() == 0
    }

    /// A register holding `val`, with its aliases at zero.
    pub fn new(val: u32) -> (r: Full)
        ensures
            r.value() == val,
            r.set_alias() == 0,
            r.clear_alias() == 0,
            r.toggle_alias() == 0,
    {
        Full { val, set: 0, clear: 0, toggle: 0 }
    }

    pub fn read(&self) -> (r: u32)
        ensures
            r == self.value(),
    {
        self.val
    }

    /// The last word stored into the set alias.
    pub fn last_set(&self) -> (r: u32)
        ensures
            r == self.set_alias(),
    {
        self.set
    }

    /// The last word stored into the clear alias.
    pub fn last_clear(&self) -> (r: u32)
        ensures
            r == self.clear_alias(),
    {
        self.clear
    }

    /// The last word stored into the toggle alias.
    pub fn last_toggle(&self) -> (r: u32)
        ensures
            r == self.toggle_alias(),
    {
        self.toggle
    }

    pub fn set(&mut self, bits: u32)
        ensures
            final(self).value() == old(self).value() | bits,
            final(self).set_alias() == bits,
            final(self).clear_alias() == old(self).clear_alias(),
            final(self).toggle_alias() == old(self).toggle_alias(),
    {
        self.set = bits;
        self.val = self.val | bits;
    }

    /// Sets bit `bit_num`; the bit number is the caller's to keep in range.
    pub fn set_bit(&mut self, bit_num: u32)
        requires
            bit_num < 32,
        ensures
            final(self).value() == old(self).value() | (1u32 << bit_num),
            final(self).set_alias() == 1u32 << bit_num,
            final(self).clear_alias() == old(self).clear_alias(),
            final(self).toggle_alias() == old(self).toggle_alias(),
    {
        self.set(1u32 << bit_num)
    }

    pub fn clear(&mut self, bits: u32)
        ensures
            final(self).value() == old(self).value() & !bits,
            final(self).clear_alias() == bits,
            final(self).set_alias() == old(self).set_alias(),
            final(self).toggle_alias() == old(self).toggle_alias(),
    {
        self.clear = bits;
        self.val = self.val & !bits;
    }

    pub fn toggle(&mut self, bits: u32)
        ensures
            final(self).value() == old(self).value() ^ bits,
            final(self).toggle_alias() == bits,
            final(self).set_alias() == old(self).set_alias(),
            final(self).clear_alias() == old(self).clear_alias(),
    {
        self.toggle = bits;
        self.val = self.val ^ bits;
    }
}

/// A read-only register followed by three reserved words. Software cannot
/// store into it; the hardware it belongs to drives its value.
#[derive(Clone, Copy)]
pub struct ReadOnly {
    val: u32,
    reserved: [u32; 3],
}

impl ReadOnly {
    /// The value the hardware presents.
    pub closed spec fn value(self) -> u32 {
        self.val
    }

    /// The register and its reserved words all hold zero.
    pub closed spec fn is_zero(self) -> bool {
        self.val == 0 && self.reserved@ == seq![0u32, 0u32, 0u32]
    }

    /// A register presenting `val`, its reserved words at zero.
    pub fn new(val: u32) -> (r: ReadOnly)
        ensures
            r.value() == val,
            val == 0 ==> r.is_zero(),
    {
        ReadOnly { val, reserved: [0u32, 0u32, 0u32] }
    }

    pub fn read(&self) -> (r: u32)
        ensures
            r == self.value(),
    {
        self.val
    }

    /// The hardware side: the register now presents `val`.
    pub(crate) fn latch(&mut self, val: u32)
        ensures
            final(self).value() == val,
    {
        self.val = val;
    }
}

/// A status register whose bits software acknowledges through a clear
/// alias two words further on.
#[derive(Clone, Copy)]
pub struct ReadClear {
    val: u32,
    reserved0: u32,
    clear: u32,
    reserved1: u32,
}

impl ReadClear {
    /// The value held by the register.
    pub closed spec fn value(self) -> u32 {
        self.val
    }

    /// The last word stored into the clear alias.
    pub closed spec fn clear_alias(self) -> u32 {
        self.clear
    }

    /// The register, its alias and its reserved words all hold zero.
    pub closed spec fn is_zero(self) -> bool {
        self.val == 0 && self.reserved0 == 0 && self.clear == 0 && self.reserved1 == 0
    }

    /// A register holding `val`, with its clear alias and reserved words at
    /// zero.
    pub fn new(val: u32) -> (r: ReadClear)
        ensures
            r.value() == val,
            val == 0 ==> r.is_zero(),
            r.clear_alias() == 0,
    {
        ReadClear { val, reserved0: 0, clear: 0, reserved1: 0 }
    }

    pub fn read(&self) -> (r: u32)
        ensures
            r == self.value(),
    {
        self.val
    }

    pub fn clear(&mut self, bits: u32)
        ensures
            final(self).value() == old(self).value() & !bits,
            final(self).clear_alias() == bits,
    {
        self.clear = bits;
        self.val = self.val & !bits;
    }
}

} // verus!
