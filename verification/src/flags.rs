//! The property flags a function is registered with.

use vstd::prelude::*;

verus! {

/// Properties a function claims for itself. The bit values are those of `SQLITE_DETERMINISTIC` and
/// friends, so a C caller's flags pass straight through.
#[derive(Clone, Copy, Debug, PartialEq, Eq, Structural)]
pub struct FunctionFlags {
    bits: u32,
}

/// Every bit that means something.
pub const ALL_FUNCTION_FLAGS: u32 = 0x0138_0800;

impl FunctionFlags {
    /// The same arguments always give the same result.
    pub const DETERMINISTIC: u32 = 0x0000_0800;

    /// May be called from a statement but never from the schema.
    pub const DIRECTONLY: u32 = 0x0008_0000;

    /// Reads the subtypes of its arguments.
    pub const SUBTYPE: u32 = 0x0010_0000;

    /// Has no side effect and no security relevance.
    pub const INNOCUOUS: u32 = 0x0020_0000;

    /// May set a subtype on its result.
    pub const RESULT_SUBTYPE: u32 = 0x0100_0000;

    /// The bits of this set of flags.
    pub closed spec fn spec_bits(self) -> u32 {
        self.bits
    }

    /// The flags in `bits`, without the bits that mean nothing.
    pub closed spec fn of_bits(bits: u32) -> FunctionFlags {
        FunctionFlags { bits: bits & ALL_FUNCTION_FLAGS }
    }

    /// Whether every flag of `mask` is in this set.
    pub open spec fn has(self, mask: u32) -> bool {
        self.spec_bits() & mask == mask
    }

    /// No flag at all.
    pub fn empty() -> (r: Self)
        ensures
            r.spec_bits() == 0,
    {
        FunctionFlags { bits: 0 }
    }

    /// The flags in `bits`; bits that mean nothing are ignored.
    pub fn from_bits_truncate(bits: u32) -> (r: Self)
        ensures
            r == FunctionFlags::of_bits(bits),
            r.spec_bits() == bits & ALL_FUNCTION_FLAGS,
    {
        FunctionFlags { bits: bits & ALL_FUNCTION_FLAGS }
    }

    /// The bits as a number.
    pub fn bits(self) -> (r: u32)
        ensures
            r == self.spec_bits(),
    {
        self.bits
    }

    /// Whether every flag of `mask` is in this set.
    pub fn contains(self, mask: u32) -> (r: bool)
        ensures
            r == self.has(mask),
    {
        self.bits & mask == mask
    }

    /// The flags of both sets together.
    pub fn union(self, other: FunctionFlags) -> (r: Self)
        ensures
            r.spec_bits() == self.spec_bits() | other.spec_bits(),
    {
        FunctionFlags { bits: self.bits | other.bits }
    }
}

/// A flag that means something is read out of a caller's bits as the caller set it, and no other bit
/// gets through.
pub proof fn law_known_flags_pass_through(bits: u32, flag: u32)
    requires
        flag & ALL_FUNCTION_FLAGS == flag,
    ensures
        FunctionFlags::of_bits(bits).has(flag) == (bits & flag == flag),
        FunctionFlags::of_bits(bits).spec_bits() & !ALL_FUNCTION_FLAGS == 0,
        FunctionFlags::of_bits(FunctionFlags::of_bits(bits).spec_bits()) == FunctionFlags::of_bits(
            bits,
        ),
{
    assert(((bits & 0x0138_0800u32) & flag == flag) == (bits & flag == flag)) by (bit_vector)
        requires
            flag & 0x0138_0800u32 == flag,
    ;
    assert((bits & 0x0138_0800u32) & !0x0138_0800u32 == 0) by (bit_vector);
    assert((bits & 0x0138_0800u32) & 0x0138_0800u32 == bits & 0x0138_0800u32) by (bit_vector);
}

/// Two sets of flags together have a flag that either of them has.
pub proof fn law_a_union_has_what_either_has(a: FunctionFlags, b: FunctionFlags, flag: u32)
    requires
        a.has(flag) || b.has(flag),
    ensures
        (a.spec_bits() | b.spec_bits()) & flag == flag,
{
    let x = a.spec_bits();
    let y = b.spec_bits();
    assert((x | y) & flag == flag) by (bit_vector)
        requires
            x & flag == flag || y & flag == flag,
    ;
}

}
