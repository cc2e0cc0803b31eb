//! The flags of a `DefineFunction2` action.
use vstd::prelude::*;

verus! {

/// `this` is preloaded into a register.
pub const PRELOAD_THIS: u16 = 0x0001;

/// `this` is not made available under its own value.
pub const SUPPRESS_THIS: u16 = 0x0002;

/// The `arguments` array is preloaded into a register.
pub const PRELOAD_ARGUMENTS: u16 = 0x0004;

/// The `arguments` array is not defined as a variable.
pub const SUPPRESS_ARGUMENTS: u16 = 0x0008;

/// `super` is preloaded into a register.
pub const PRELOAD_SUPER: u16 = 0x0010;

/// `super` is not made available.
pub const SUPPRESS_SUPER: u16 = 0x0020;

/// `_root` is preloaded into a register.
pub const PRELOAD_ROOT: u16 = 0x0040;

/// `_parent` is preloaded into a register.
pub const PRELOAD_PARENT: u16 = 0x0080;

/// `_global` is preloaded into a register.
pub const PRELOAD_GLOBAL: u16 = 0x0100;

/// Which special values a function wants in registers, and which it wants withheld.
#[derive(Clone, Copy, Debug, PartialEq, Eq, Structural)]
pub struct FunctionFlags {
    pub bits: u16,
}

impl FunctionFlags {
    /// Every bit of `flag` is set.
    pub open spec fn has(self, flag: u16) -> bool {
        self.bits & flag == flag
    }

    /// No flag is set.
    pub fn empty() -> (res: FunctionFlags)
        ensures
            res.bits == 0,
    {
        FunctionFlags { bits: 0 }
    }

    /// Whether all bits of `flag` are set.
    pub fn contains(&self, flag: u16) -> (res: bool)
        ensures
            res == self.has(flag),
    {
        self.bits & flag == flag
    }

    /// Whether at least one bit of `flags` is set.
    pub fn intersects(&self, flags: u16) -> (res: bool)
        ensures
            res == (self.bits & flags != 0),
    {
        self.bits & flags != 0
    }
}

/// A function whose flags touch `this` at all either preloads or suppresses it.
pub proof fn this_flags_intersect(flags: FunctionFlags)
    ensures
        (flags.bits & (PRELOAD_THIS | SUPPRESS_THIS) != 0) == (flags.has(PRELOAD_THIS)
            || flags.has(SUPPRESS_THIS)),
{
    let bits = flags.bits;
    assert((bits & (0x0001u16 | 0x0002u16) != 0) == (bits & 0x0001u16 == 0x0001u16 || bits
        & 0x0002u16 == 0x0002u16)) by (bit_vector);
}

} // verus!
