use vstd::prelude::*;

verus! {

/// Architectures that the engine decodes.
#[allow(non_camel_case_types)]
#[derive(Clone, Copy, Debug, PartialEq, Eq, Structural)]
pub enum CsArch {
    /// ARM architecture (including Thumb, Thumb-2)
    ARCH_ARM,
    /// ARM-64, also called AArch64
    ARCH_ARM64,
    /// Mips architecture
    ARCH_MIPS,
    /// X86 architecture (including x86 & x86-64)
    ARCH_X86,
    /// PowerPC architecture
    ARCH_PPC,
    /// Sparc architecture
    ARCH_SPARC,
    /// SystemZ architecture
    ARCH_SYSZ,
    /// XCore architecture
    ARCH_XCORE,
    /// All architectures - for cs_support()
    ARCH_ALL,
}

impl CsArch {
    /// The engine's numeric value of this architecture.
    pub open spec fn spec_code(self) -> u32 {
        match self {
            CsArch::ARCH_ARM => 0,
            CsArch::ARCH_ARM64 => 1,
            CsArch::ARCH_MIPS => 2,
            CsArch::ARCH_X86 => 3,
            CsArch::ARCH_PPC => 4,
            CsArch::ARCH_SPARC => 5,
            CsArch::ARCH_SYSZ => 6,
            CsArch::ARCH_XCORE => 7,
            CsArch::ARCH_ALL => 0xFFFF,
        }
    }

    /// The engine's numeric value of this architecture.
    pub fn code(&self) -> (r: u32)
        ensures
            r == self.spec_code(),
    {
        match self {
            CsArch::ARCH_ARM => 0,
            CsArch::ARCH_ARM64 => 1,
            CsArch::ARCH_MIPS => 2,
            CsArch::ARCH_X86 => 3,
            CsArch::ARCH_PPC => 4,
            CsArch::ARCH_SPARC => 5,
            CsArch::ARCH_SYSZ => 6,
            CsArch::ARCH_XCORE => 7,
            CsArch::ARCH_ALL => 0xFFFF,
        }
    }
}

/// Engine options.
#[allow(non_camel_case_types)]
#[derive(Clone, Copy, Debug, PartialEq, Eq, Structural)]
pub enum CsOptType {
    /// Assembly output syntax
    CS_OPT_SYNTAX,
    /// Break down instruction structure into details
    CS_OPT_DETAIL,
    /// Change engine's mode at run-time
    CS_OPT_MODE,
    /// User-defined dynamic memory related functions
    CS_OPT_MEM,
    /// Skip data when disassembling
    CS_OPT_SKIPDATA,
    /// Setup user-defined functions for data skipping
    CS_OPT_SKIPDATA_SETUP,
}

impl CsOptType {
    /// The engine's numeric value of this option.
    pub open spec fn spec_code(self) -> u32 {
        match self {
            CsOptType::CS_OPT_SYNTAX => 1,
            CsOptType::CS_OPT_DETAIL => 2,
            CsOptType::CS_OPT_MODE => 3,
            CsOptType::CS_OPT_MEM => 4,
            CsOptType::CS_OPT_SKIPDATA => 5,
            CsOptType::CS_OPT_SKIPDATA_SETUP => 6,
        }
    }

    /// The engine's numeric value of this option.
    pub fn code(&self) -> (r: u32)
        ensures
            r == self.spec_code(),
    {
        match self {
            CsOptType::CS_OPT_SYNTAX => 1,
            CsOptType::CS_OPT_DETAIL => 2,
            CsOptType::CS_OPT_MODE => 3,
            CsOptType::CS_OPT_MEM => 4,
            CsOptType::CS_OPT_SKIPDATA => 5,
            CsOptType::CS_OPT_SKIPDATA_SETUP => 6,
        }
    }
}

/// Turn OFF an option
pub const CS_OPT_OFF: u32 = 0;
/// Turn ON an option
pub const CS_OPT_ON: u32 = 3;
/// Default asm syntax
pub const CS_OPT_SYNTAX_DEFAULT: u32 = 0;
/// X86 Intel asm syntax - default on X86
pub const CS_OPT_SYNTAX_INTEL: u32 = 1;
/// X86 ATT asm syntax
pub const CS_OPT_SYNTAX_ATT: u32 = 2;
/// Print numbers instead of register names
pub const CS_OPT_SYNTAX_NOREGNAME: u32 = 3;

/// A value handed to the engine together with an option.
#[derive(Clone, Copy, Debug, PartialEq, Eq, Structural)]
pub struct CsOptValue(pub u32);

impl CsOptValue {
    /// The names of the option values that this value stands for.
    pub fn name(&self) -> (r: &'static str)
        ensures
            self.0 == CS_OPT_OFF ==> r == "CS_OPT_OFF | CS_OPT_SYNTAX_DEFAULT",
            self.0 == CS_OPT_ON ==> r == "CS_OPT_ON | CS_OPT_SYNTAX_NOREGNAME",
            self.0 == CS_OPT_SYNTAX_INTEL ==> r == "CS_OPT_SYNTAX_INTEL",
            self.0 == CS_OPT_SYNTAX_ATT ==> r == "CS_OPT_SYNTAX_ATT",
            self.0 > 3 ==> r == "CS_OPT_UNKNOWN",
    {
        if self.0 == CS_OPT_OFF {
            "CS_OPT_OFF | CS_OPT_SYNTAX_DEFAULT"
        } else if self.0 == CS_OPT_ON {
            "CS_OPT_ON | CS_OPT_SYNTAX_NOREGNAME"
        } else if self.0 == CS_OPT_SYNTAX_INTEL {
            "CS_OPT_SYNTAX_INTEL"
        } else if self.0 == CS_OPT_SYNTAX_ATT {
            "CS_OPT_SYNTAX_ATT"
        } else {
            "CS_OPT_UNKNOWN"
        }
    }

    /// The value that turns a boolean option on or off.
    pub fn switch(on: bool) -> (r: CsOptValue)
        ensures
            r.0 == (if on { CS_OPT_ON } else { CS_OPT_OFF }),
    {
        if on {
            CsOptValue(CS_OPT_ON)
        } else {
            CsOptValue(CS_OPT_OFF)
        }
    }
}

} // verus!
