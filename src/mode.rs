use vstd::prelude::*;

verus! {

/// little-endian mode (default mode)
pub const LITTLE_ENDIAN: u32 = 0;
/// 32-bit ARM
pub const ARM: u32 = 0;
/// 16-bit mode (X86)
pub const W16: u32 = 1 << 1;
/// 32-bit mode (X86)
pub const W32: u32 = 1 << 2;
/// 64-bit mode (X86, PPC)
pub const W64: u32 = 1 << 3;
/// ARM's Thumb mode, including Thumb-2
pub const THUMB: u32 = 1 << 4;
/// ARM's Cortex-M series
pub const MCLASS: u32 = 1 << 5;
/// ARMv8 A32 encodings for ARM
pub const V8: u32 = 1 << 6;
/// MicroMips mode (MIPS)
pub const MICRO: u32 = 1 << 4;
/// Mips III ISA
pub const MIPS3: u32 = 1 << 5;
/// Mips32r6 ISA
pub const MIPS32R6: u32 = 1 << 6;
/// General Purpose Registers are 64-bit wide (MIPS)
pub const MIPSGP64: u32 = 1 << 7;
/// SparcV9 mode (Sparc)
pub const V9: u32 = 1 << 4;
/// big-endian mode
pub const BIG_ENDIAN: u32 = 1 << 31;
/// Mips32 ISA (Mips)
pub const MIPS32: u32 = W32;
/// Mips64 ISA (Mips)
pub const MIPS64: u32 = W64;

/// Architecture mode flags: a set of the bits above, in the engine's numbering.
#[derive(Clone, Copy, Debug, PartialEq, Eq, Structural)]
pub struct CsMode {
    bits: u32,
}

impl CsMode {
    /// The bits of this mode, as handed to the engine.
    pub closed spec fn spec_bits(self) -> u32 {
        self.bits
    }

    /// A mode made of the given bits.
    pub fn from_bits(bits: u32) -> (r: CsMode)
        ensures
            r.spec_bits() == bits,
    {
        CsMode { bits }
    }

    /// The bits of this mode, as handed to the engine.
    pub fn bits(&self) -> (r: u32)
        ensures
            r == self.spec_bits(),
    {
        self.bits
    }

    /// The mode with the flags of both `self` and `other`.
    pub fn union(&self, other: CsMode) -> (r: CsMode)
        ensures
            r.spec_bits() == self.spec_bits() | other.spec_bits(),
    {
        CsMode { bits: self.bits | other.bits }
    }

    /// Whether every flag of `other` is set in `self`.
    pub fn contains(&self, other: CsMode) -> (r: bool)
        ensures
            r == (self.spec_bits() & other.spec_bits() == other.spec_bits()),
    {
        self.bits & other.bits == other.bits
    }
}

} // verus!
