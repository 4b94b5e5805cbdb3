use crate::layout::{
    high_half, high_half_of, le_u32_at, le_u64_at, low_half, low_half_of, read_u32, read_u64,
    visible_count, ARCH_PAYLOAD_SIZE,
};
use vstd::prelude::*;

verus! {

/// Size of the ARM layout inside the detail block.
pub const ARM_DETAIL_SIZE: usize = 1480;
/// Where the operand array starts inside the ARM layout.
pub const ARM_OPERANDS_OFFSET: usize = 40;
/// Size of one ARM operand.
pub const ARM_OP_SIZE: usize = 40;
/// Capacity of the ARM operand array.
pub const ARM_MAX_OPERANDS: usize = 36;

/// Instruction operand type for ARM
#[allow(non_camel_case_types)]
#[derive(Clone, Copy, Debug, PartialEq, Eq, Structural)]
pub enum ARMOpType {
    /// Uninitialized
    ARM_OP_INVALID,
    /// Register operand
    ARM_OP_REG,
    /// Immediate operand
    ARM_OP_IMM,
    /// Memory operand
    ARM_OP_MEM,
    /// Floating-Point operand
    ARM_OP_FP,
    /// C-Immediate (coprocessor registers)
    ARM_OP_CIMM,
    /// P-Immediate (coprocessor registers)
    ARM_OP_PIMM,
    /// Operand for SETEND instruction
    ARM_OP_SETEND,
    /// MSR/MRS special register operand
    ARM_OP_SYSREG,
}

impl ARMOpType {
    /// The engine's numeric value.
    pub open spec fn spec_code(self) -> u32 {
        match self {
            ARMOpType::ARM_OP_INVALID => 0,
            ARMOpType::ARM_OP_REG => 1,
            ARMOpType::ARM_OP_IMM => 2,
            ARMOpType::ARM_OP_MEM => 3,
            ARMOpType::ARM_OP_FP => 4,
            ARMOpType::ARM_OP_CIMM => 64,
            ARMOpType::ARM_OP_PIMM => 65,
            ARMOpType::ARM_OP_SETEND => 66,
            ARMOpType::ARM_OP_SYSREG => 67,
        }
    }

    /// The engine's numeric value.
    pub fn code(&self) -> (r: u32)
        ensures
            r == self.spec_code(),
    {
        match self {
            ARMOpType::ARM_OP_INVALID => 0,
            ARMOpType::ARM_OP_REG => 1,
            ARMOpType::ARM_OP_IMM => 2,
            ARMOpType::ARM_OP_MEM => 3,
            ARMOpType::ARM_OP_FP => 4,
            ARMOpType::ARM_OP_CIMM => 64,
            ARMOpType::ARM_OP_PIMM => 65,
            ARMOpType::ARM_OP_SETEND => 66,
            ARMOpType::ARM_OP_SYSREG => 67,
        }
    }

    /// The value with the engine's numeric value `v`, if this binding names one.
    pub fn from_raw(v: u32) -> (r: Option<ARMOpType>)
        ensures
            r matches Some(t) ==> t.spec_code() == v,
            r is Some <==> (v == 0 || v == 1 || v == 2 || v == 3 || v == 4 || v == 64 || v == 65 || v == 66 || v == 67),
    {
        match v {
            0 => Some(ARMOpType::ARM_OP_INVALID),
            1 => Some(ARMOpType::ARM_OP_REG),
            2 => Some(ARMOpType::ARM_OP_IMM),
            3 => Some(ARMOpType::ARM_OP_MEM),
            4 => Some(ARMOpType::ARM_OP_FP),
            64 => Some(ARMOpType::ARM_OP_CIMM),
            65 => Some(ARMOpType::ARM_OP_PIMM),
            66 => Some(ARMOpType::ARM_OP_SETEND),
            67 => Some(ARMOpType::ARM_OP_SYSREG),
            _ => None,
        }
    }
}

/// Operand of a SETEND instruction
#[allow(non_camel_case_types)]
#[derive(Clone, Copy, Debug, PartialEq, Eq, Structural)]
pub enum ARMSetendType {
    /// Uninitialized
    ARM_SETEND_INVALID,
    /// Big-endian
    ARM_SETEND_BE,
    /// Little-endian
    ARM_SETEND_LE,
}

impl ARMSetendType {
    /// The engine's numeric value.
    pub open spec fn spec_code(self) -> u32 {
        match self {
            ARMSetendType::ARM_SETEND_INVALID => 0,
            ARMSetendType::ARM_SETEND_BE => 1,
            ARMSetendType::ARM_SETEND_LE => 2,
        }
    }

    /// The value with the engine's numeric value `v`, if this binding names one.
    pub fn from_raw(v: u32) -> (r: Option<ARMSetendType>)
        ensures
            r matches Some(t) ==> t.spec_code() == v,
            r is Some <==> (v == 0 || v == 1 || v == 2),
    {
        match v {
            0 => Some(ARMSetendType::ARM_SETEND_INVALID),
            1 => Some(ARMSetendType::ARM_SETEND_BE),
            2 => Some(ARMSetendType::ARM_SETEND_LE),
            _ => None,
        }
    }
}

/// ARM condition code
#[allow(non_camel_case_types)]
#[derive(Clone, Copy, Debug, PartialEq, Eq, Structural)]
pub enum ARMCC {
    ARM_CC_INVALID,
    ARM_CC_EQ,
    ARM_CC_NE,
    ARM_CC_HS,
    ARM_CC_LO,
    ARM_CC_MI,
    ARM_CC_PL,
    ARM_CC_VS,
    ARM_CC_VC,
    ARM_CC_HI,
    ARM_CC_LS,
    ARM_CC_GE,
    ARM_CC_LT,
    ARM_CC_GT,
    ARM_CC_LE,
    ARM_CC_AL,
}

impl ARMCC {
    /// The engine's numeric value.
    pub open spec fn spec_code(self) -> u32 {
        match self {
            ARMCC::ARM_CC_INVALID => 0,
            ARMCC::ARM_CC_EQ => 1,
            ARMCC::ARM_CC_NE => 2,
            ARMCC::ARM_CC_HS => 3,
            ARMCC::ARM_CC_LO => 4,
            ARMCC::ARM_CC_MI => 5,
            ARMCC::ARM_CC_PL => 6,
            ARMCC::ARM_CC_VS => 7,
            ARMCC::ARM_CC_VC => 8,
            ARMCC::ARM_CC_HI => 9,
            ARMCC::ARM_CC_LS => 10,
            ARMCC::ARM_CC_GE => 11,
            ARMCC::ARM_CC_LT => 12,
            ARMCC::ARM_CC_GT => 13,
            ARMCC::ARM_CC_LE => 14,
            ARMCC::ARM_CC_AL => 15,
        }
    }

    /// The value with the engine's numeric value `v`, if this binding names one.
    pub fn from_raw(v: u32) -> (r: Option<ARMCC>)
        ensures
            r matches Some(t) ==> t.spec_code() == v,
            r is Some <==> v <= 15,
    {
        match v {
            0 => Some(ARMCC::ARM_CC_INVALID),
            1 => Some(ARMCC::ARM_CC_EQ),
            2 => Some(ARMCC::ARM_CC_NE),
            3 => Some(ARMCC::ARM_CC_HS),
            4 => Some(ARMCC::ARM_CC_LO),
            5 => Some(ARMCC::ARM_CC_MI),
            6 => Some(ARMCC::ARM_CC_PL),
            7 => Some(ARMCC::ARM_CC_VS),
            8 => Some(ARMCC::ARM_CC_VC),
            9 => Some(ARMCC::ARM_CC_HI),
            10 => Some(ARMCC::ARM_CC_LS),
            11 => Some(ARMCC::ARM_CC_GE),
            12 => Some(ARMCC::ARM_CC_LT),
            13 => Some(ARMCC::ARM_CC_GT),
            14 => Some(ARMCC::ARM_CC_LE),
            15 => Some(ARMCC::ARM_CC_AL),
            _ => None,
        }
    }
}

/// Mode of a CPS instruction
#[allow(non_camel_case_types)]
#[derive(Clone, Copy, Debug, PartialEq, Eq, Structural)]
pub enum ARMCPSMode {
    ARM_CPSMODE_INVALID,
    ARM_CPSMODE_IE,
    ARM_CPSMODE_ID,
}

impl ARMCPSMode {
    /// The engine's numeric value.
    pub open spec fn spec_code(self) -> u32 {
        match self {
            ARMCPSMode::ARM_CPSMODE_INVALID => 0,
            ARMCPSMode::ARM_CPSMODE_IE => 2,
            ARMCPSMode::ARM_CPSMODE_ID => 3,
        }
    }

    /// The value with the engine's numeric value `v`, if this binding names one.
    pub fn from_raw(v: u32) -> (r: Option<ARMCPSMode>)
        ensures
            r matches Some(t) ==> t.spec_code() == v,
            r is Some <==> (v == 0 || v == 2 || v == 3),
    {
        match v {
            0 => Some(ARMCPSMode::ARM_CPSMODE_INVALID),
            2 => Some(ARMCPSMode::ARM_CPSMODE_IE),
            3 => Some(ARMCPSMode::ARM_CPSMODE_ID),
            _ => None,
        }
    }
}

/// Flag of a CPS instruction; the engine ORs several into one value
#[allow(non_camel_case_types)]
#[derive(Clone, Copy, Debug, PartialEq, Eq, Structural)]
pub enum ARMCPSFlag {
    ARM_CPSFLAG_INVALID,
    ARM_CPSFLAG_F,
    ARM_CPSFLAG_I,
    ARM_CPSFLAG_A,
    /// no flag
    ARM_CPSFLAG_NONE,
}

impl ARMCPSFlag {
    /// The engine's numeric value.
    pub open spec fn spec_code(self) -> u32 {
        match self {
            ARMCPSFlag::ARM_CPSFLAG_INVALID => 0,
            ARMCPSFlag::ARM_CPSFLAG_F => 1,
            ARMCPSFlag::ARM_CPSFLAG_I => 2,
            ARMCPSFlag::ARM_CPSFLAG_A => 4,
            ARMCPSFlag::ARM_CPSFLAG_NONE => 16,
        }
    }

    /// The engine's numeric value.
    pub fn code(&self) -> (r: u32)
        ensures
            r == self.spec_code(),
    {
        match self {
            ARMCPSFlag::ARM_CPSFLAG_INVALID => 0,
            ARMCPSFlag::ARM_CPSFLAG_F => 1,
            ARMCPSFlag::ARM_CPSFLAG_I => 2,
            ARMCPSFlag::ARM_CPSFLAG_A => 4,
            ARMCPSFlag::ARM_CPSFLAG_NONE => 16,
        }
    }
}

/// ARM register
#[allow(non_camel_case_types)]
#[derive(Clone, Copy, Debug, PartialEq, Eq, Structural)]
pub enum ARMReg {
    ARM_REG_INVALID,
    ARM_REG_APSR,
    ARM_REG_APSR_NZCV,
    ARM_REG_CPSR,
    ARM_REG_FPEXC,
    ARM_REG_FPINST,
    ARM_REG_FPSCR,
    ARM_REG_FPSCR_NZCV,
    ARM_REG_FPSID,
    ARM_REG_ITSTATE,
    ARM_REG_LR,
    ARM_REG_PC,
    ARM_REG_SP,
    ARM_REG_SPSR,
    ARM_REG_D0,
    ARM_REG_D1,
    ARM_REG_D2,
    ARM_REG_D3,
    ARM_REG_D4,
    ARM_REG_D5,
    ARM_REG_D6,
    ARM_REG_D7,
    ARM_REG_D8,
    ARM_REG_D9,
    ARM_REG_D10,
    ARM_REG_D11,
    ARM_REG_D12,
    ARM_REG_D13,
    ARM_REG_D14,
    ARM_REG_D15,
    ARM_REG_D16,
    ARM_REG_D17,
    ARM_REG_D18,
    ARM_REG_D19,
    ARM_REG_D20,
    ARM_REG_D21,
    ARM_REG_D22,
    ARM_REG_D23,
    ARM_REG_D24,
    ARM_REG_D25,
    ARM_REG_D26,
    ARM_REG_D27,
    ARM_REG_D28,
    ARM_REG_D29,
    ARM_REG_D30,
    ARM_REG_D31,
    ARM_REG_FPINST2,
    ARM_REG_MVFR0,
    ARM_REG_MVFR1,
    ARM_REG_MVFR2,
    ARM_REG_Q0,
    ARM_REG_Q1,
    ARM_REG_Q2,
    ARM_REG_Q3,
    ARM_REG_Q4,
    ARM_REG_Q5,
    ARM_REG_Q6,
    ARM_REG_Q7,
    ARM_REG_Q8,
    ARM_REG_Q9,
    ARM_REG_Q10,
    ARM_REG_Q11,
    ARM_REG_Q12,
    ARM_REG_Q13,
    ARM_REG_Q14,
    ARM_REG_Q15,
    ARM_REG_R0,
    ARM_REG_R1,
    ARM_REG_R2,
    ARM_REG_R3,
    ARM_REG_R4,
    ARM_REG_R5,
    ARM_REG_R6,
    ARM_REG_R7,
    ARM_REG_R8,
    ARM_REG_R9,
    ARM_REG_R10,
    ARM_REG_R11,
    ARM_REG_R12,
    ARM_REG_S0,
    ARM_REG_S1,
    ARM_REG_S2,
    ARM_REG_S3,
    ARM_REG_S4,
    ARM_REG_S5,
    ARM_REG_S6,
    ARM_REG_S7,
    ARM_REG_S8,
    ARM_REG_S9,
    ARM_REG_S10,
    ARM_REG_S11,
    ARM_REG_S12,
    ARM_REG_S13,
    ARM_REG_S14,
    ARM_REG_S15,
    ARM_REG_S16,
    ARM_REG_S17,
    ARM_REG_S18,
    ARM_REG_S19,
    ARM_REG_S20,
    ARM_REG_S21,
    ARM_REG_S22,
    ARM_REG_S23,
    ARM_REG_S24,
    ARM_REG_S25,
    ARM_REG_S26,
    ARM_REG_S27,
    ARM_REG_S28,
    ARM_REG_S29,
    ARM_REG_S30,
    ARM_REG_S31,
    /// mark the end of the list of registers
    ARM_REG_ENDING,
}

impl ARMReg {
    /// The engine's numeric value.
    pub open spec fn spec_code(self) -> u32 {
        match self {
            ARMReg::ARM_REG_INVALID => 0,
            ARMReg::ARM_REG_APSR => 1,
            ARMReg::ARM_REG_APSR_NZCV => 2,
            ARMReg::ARM_REG_CPSR => 3,
            ARMReg::ARM_REG_FPEXC => 4,
            ARMReg::ARM_REG_FPINST => 5,
            ARMReg::ARM_REG_FPSCR => 6,
            ARMReg::ARM_REG_FPSCR_NZCV => 7,
            ARMReg::ARM_REG_FPSID => 8,
            ARMReg::ARM_REG_ITSTATE => 9,
            ARMReg::ARM_REG_LR => 10,
            ARMReg::ARM_REG_PC => 11,
            ARMReg::ARM_REG_SP => 12,
            ARMReg::ARM_REG_SPSR => 13,
            ARMReg::ARM_REG_D0 => 14,
            ARMReg::ARM_REG_D1 => 15,
            ARMReg::ARM_REG_D2 => 16,
            ARMReg::ARM_REG_D3 => 17,
            ARMReg::ARM_REG_D4 => 18,
            ARMReg::ARM_REG_D5 => 19,
            ARMReg::ARM_REG_D6 => 20,
            ARMReg::ARM_REG_D7 => 21,
            ARMReg::ARM_REG_D8 => 22,
            ARMReg::ARM_REG_D9 => 23,
            ARMReg::ARM_REG_D10 => 24,
            ARMReg::ARM_REG_D11 => 25,
            ARMReg::ARM_REG_D12 => 26,
            ARMReg::ARM_REG_D13 => 27,
            ARMReg::ARM_REG_D14 => 28,
            ARMReg::ARM_REG_D15 => 29,
            ARMReg::ARM_REG_D16 => 30,
            ARMReg::ARM_REG_D17 => 31,
            ARMReg::ARM_REG_D18 => 32,
            ARMReg::ARM_REG_D19 => 33,
            ARMReg::ARM_REG_D20 => 34,
            ARMReg::ARM_REG_D21 => 35,
            ARMReg::ARM_REG_D22 => 36,
            ARMReg::ARM_REG_D23 => 37,
            ARMReg::ARM_REG_D24 => 38,
            ARMReg::ARM_REG_D25 => 39,
            ARMReg::ARM_REG_D26 => 40,
            ARMReg::ARM_REG_D27 => 41,
            ARMReg::ARM_REG_D28 => 42,
            ARMReg::ARM_REG_D29 => 43,
            ARMReg::ARM_REG_D30 => 44,
            ARMReg::ARM_REG_D31 => 45,
            ARMReg::ARM_REG_FPINST2 => 46,
            ARMReg::ARM_REG_MVFR0 => 47,
            ARMReg::ARM_REG_MVFR1 => 48,
            ARMReg::ARM_REG_MVFR2 => 49,
            ARMReg::ARM_REG_Q0 => 50,
            ARMReg::ARM_REG_Q1 => 51,
            ARMReg::ARM_REG_Q2 => 52,
            ARMReg::ARM_REG_Q3 => 53,
            ARMReg::ARM_REG_Q4 => 54,
            ARMReg::ARM_REG_Q5 => 55,
            ARMReg::ARM_REG_Q6 => 56,
            ARMReg::ARM_REG_Q7 => 57,
            ARMReg::ARM_REG_Q8 => 58,
            ARMReg::ARM_REG_Q9 => 59,
            ARMReg::ARM_REG_Q10 => 60,
            ARMReg::ARM_REG_Q11 => 61,
            ARMReg::ARM_REG_Q12 => 62,
            ARMReg::ARM_REG_Q13 => 63,
            ARMReg::ARM_REG_Q14 => 64,
            ARMReg::ARM_REG_Q15 => 65,
            ARMReg::ARM_REG_R0 => 66,
            ARMReg::ARM_REG_R1 => 67,
            ARMReg::ARM_REG_R2 => 68,
            ARMReg::ARM_REG_R3 => 69,
            ARMReg::ARM_REG_R4 => 70,
            ARMReg::ARM_REG_R5 => 71,
            ARMReg::ARM_REG_R6 => 72,
            ARMReg::ARM_REG_R7 => 73,
            ARMReg::ARM_REG_R8 => 74,
            ARMReg::ARM_REG_R9 => 75,
            ARMReg::ARM_REG_R10 => 76,
            ARMReg::ARM_REG_R11 => 77,
            ARMReg::ARM_REG_R12 => 78,
            ARMReg::ARM_REG_S0 => 79,
            ARMReg::ARM_REG_S1 => 80,
            ARMReg::ARM_REG_S2 => 81,
            ARMReg::ARM_REG_S3 => 82,
            ARMReg::ARM_REG_S4 => 83,
            ARMReg::ARM_REG_S5 => 84,
            ARMReg::ARM_REG_S6 => 85,
            ARMReg::ARM_REG_S7 => 86,
            ARMReg::ARM_REG_S8 => 87,
            ARMReg::ARM_REG_S9 => 88,
            ARMReg::ARM_REG_S10 => 89,
            ARMReg::ARM_REG_S11 => 90,
            ARMReg::ARM_REG_S12 => 91,
            ARMReg::ARM_REG_S13 => 92,
            ARMReg::ARM_REG_S14 => 93,
            ARMReg::ARM_REG_S15 => 94,
            ARMReg::ARM_REG_S16 => 95,
            ARMReg::ARM_REG_S17 => 96,
            ARMReg::ARM_REG_S18 => 97,
            ARMReg::ARM_REG_S19 => 98,
            ARMReg::ARM_REG_S20 => 99,
            ARMReg::ARM_REG_S21 => 100,
            ARMReg::ARM_REG_S22 => 101,
            ARMReg::ARM_REG_S23 => 102,
            ARMReg::ARM_REG_S24 => 103,
            ARMReg::ARM_REG_S25 => 104,
            ARMReg::ARM_REG_S26 => 105,
            ARMReg::ARM_REG_S27 => 106,
            ARMReg::ARM_REG_S28 => 107,
            ARMReg::ARM_REG_S29 => 108,
            ARMReg::ARM_REG_S30 => 109,
            ARMReg::ARM_REG_S31 => 110,
            ARMReg::ARM_REG_ENDING => 111,
        }
    }

    /// The value with the engine's numeric value `v`, if this binding names one.
    pub fn from_raw(v: u32) -> (r: Option<ARMReg>)
        ensures
            r matches Some(t) ==> t.spec_code() == v,
            r is Some <==> v <= 110,
    {
        match v {
            0 => Some(ARMReg::ARM_REG_INVALID),
            1 => Some(ARMReg::ARM_REG_APSR),
            2 => Some(ARMReg::ARM_REG_APSR_NZCV),
            3 => Some(ARMReg::ARM_REG_CPSR),
            4 => Some(ARMReg::ARM_REG_FPEXC),
            5 => Some(ARMReg::ARM_REG_FPINST),
            6 => Some(ARMReg::ARM_REG_FPSCR),
            7 => Some(ARMReg::ARM_REG_FPSCR_NZCV),
            8 => Some(ARMReg::ARM_REG_FPSID),
            9 => Some(ARMReg::ARM_REG_ITSTATE),
            10 => Some(ARMReg::ARM_REG_LR),
            11 => Some(ARMReg::ARM_REG_PC),
            12 => Some(ARMReg::ARM_REG_SP),
            13 => Some(ARMReg::ARM_REG_SPSR),
            14 => Some(ARMReg::ARM_REG_D0),
            15 => Some(ARMReg::ARM_REG_D1),
            16 => Some(ARMReg::ARM_REG_D2),
            17 => Some(ARMReg::ARM_REG_D3),
            18 => Some(ARMReg::ARM_REG_D4),
            19 => Some(ARMReg::ARM_REG_D5),
            20 => Some(ARMReg::ARM_REG_D6),
            21 => Some(ARMReg::ARM_REG_D7),
            22 => Some(ARMReg::ARM_REG_D8),
            23 => Some(ARMReg::ARM_REG_D9),
            24 => Some(ARMReg::ARM_REG_D10),
            25 => Some(ARMReg::ARM_REG_D11),
            26 => Some(ARMReg::ARM_REG_D12),
            27 => Some(ARMReg::ARM_REG_D13),
            28 => Some(ARMReg::ARM_REG_D14),
            29 => Some(ARMReg::ARM_REG_D15),
            30 => Some(ARMReg::ARM_REG_D16),
            31 => Some(ARMReg::ARM_REG_D17),
            32 => Some(ARMReg::ARM_REG_D18),
            33 => Some(ARMReg::ARM_REG_D19),
            34 => Some(ARMReg::ARM_REG_D20),
            35 => Some(ARMReg::ARM_REG_D21),
            36 => Some(ARMReg::ARM_REG_D22),
            37 => Some(ARMReg::ARM_REG_D23),
            38 => Some(ARMReg::ARM_REG_D24),
            39 => Some(ARMReg::ARM_REG_D25),
            40 => Some(ARMReg::ARM_REG_D26),
            41 => Some(ARMReg::ARM_REG_D27),
            42 => Some(ARMReg::ARM_REG_D28),
            43 => Some(ARMReg::ARM_REG_D29),
            44 => Some(ARMReg::ARM_REG_D30),
            45 => Some(ARMReg::ARM_REG_D31),
            46 => Some(ARMReg::ARM_REG_FPINST2),
            47 => Some(ARMReg::ARM_REG_MVFR0),
            48 => Some(ARMReg::ARM_REG_MVFR1),
            49 => Some(ARMReg::ARM_REG_MVFR2),
            50 => Some(ARMReg::ARM_REG_Q0),
            51 => Some(ARMReg::ARM_REG_Q1),
            52 => Some(ARMReg::ARM_REG_Q2),
            53 => Some(ARMReg::ARM_REG_Q3),
            54 => Some(ARMReg::ARM_REG_Q4),
            55 => Some(ARMReg::ARM_REG_Q5),
            56 => Some(ARMReg::ARM_REG_Q6),
            57 => Some(ARMReg::ARM_REG_Q7),
            58 => Some(ARMReg::ARM_REG_Q8),
            59 => Some(ARMReg::ARM_REG_Q9),
            60 => Some(ARMReg::ARM_REG_Q10),
            61 => Some(ARMReg::ARM_REG_Q11),
            62 => Some(ARMReg::ARM_REG_Q12),
            63 => Some(ARMReg::ARM_REG_Q13),
            64 => Some(ARMReg::ARM_REG_Q14),
            65 => Some(ARMReg::ARM_REG_Q15),
            66 => Some(ARMReg::ARM_REG_R0),
            67 => Some(ARMReg::ARM_REG_R1),
            68 => Some(ARMReg::ARM_REG_R2),
            69 => Some(ARMReg::ARM_REG_R3),
            70 => Some(ARMReg::ARM_REG_R4),
            71 => Some(ARMReg::ARM_REG_R5),
            72 => Some(ARMReg::ARM_REG_R6),
            73 => Some(ARMReg::ARM_REG_R7),
            74 => Some(ARMReg::ARM_REG_R8),
            75 => Some(ARMReg::ARM_REG_R9),
            76 => Some(ARMReg::ARM_REG_R10),
            77 => Some(ARMReg::ARM_REG_R11),
            78 => Some(ARMReg::ARM_REG_R12),
            79 => Some(ARMReg::ARM_REG_S0),
            80 => Some(ARMReg::ARM_REG_S1),
            81 => Some(ARMReg::ARM_REG_S2),
            82 => Some(ARMReg::ARM_REG_S3),
            83 => Some(ARMReg::ARM_REG_S4),
            84 => Some(ARMReg::ARM_REG_S5),
            85 => Some(ARMReg::ARM_REG_S6),
            86 => Some(ARMReg::ARM_REG_S7),
            87 => Some(ARMReg::ARM_REG_S8),
            88 => Some(ARMReg::ARM_REG_S9),
            89 => Some(ARMReg::ARM_REG_S10),
            90 => Some(ARMReg::ARM_REG_S11),
            91 => Some(ARMReg::ARM_REG_S12),
            92 => Some(ARMReg::ARM_REG_S13),
            93 => Some(ARMReg::ARM_REG_S14),
            94 => Some(ARMReg::ARM_REG_S15),
            95 => Some(ARMReg::ARM_REG_S16),
            96 => Some(ARMReg::ARM_REG_S17),
            97 => Some(ARMReg::ARM_REG_S18),
            98 => Some(ARMReg::ARM_REG_S19),
            99 => Some(ARMReg::ARM_REG_S20),
            100 => Some(ARMReg::ARM_REG_S21),
            101 => Some(ARMReg::ARM_REG_S22),
            102 => Some(ARMReg::ARM_REG_S23),
            103 => Some(ARMReg::ARM_REG_S24),
            104 => Some(ARMReg::ARM_REG_S25),
            105 => Some(ARMReg::ARM_REG_S26),
            106 => Some(ARMReg::ARM_REG_S27),
            107 => Some(ARMReg::ARM_REG_S28),
            108 => Some(ARMReg::ARM_REG_S29),
            109 => Some(ARMReg::ARM_REG_S30),
            110 => Some(ARMReg::ARM_REG_S31),
            _ => None,
        }
    }
}

/// Special register operand of MSR/MRS; the SPSR and CPSR fields may be ORed, which gives a value that is not named here
#[allow(non_camel_case_types)]
#[derive(Clone, Copy, Debug, PartialEq, Eq, Structural)]
pub enum ARMSysreg {
    ARM_SYSREG_INVALID,
    ARM_SYSREG_SPSR_C,
    ARM_SYSREG_SPSR_X,
    ARM_SYSREG_SPSR_S,
    ARM_SYSREG_SPSR_F,
    ARM_SYSREG_CPSR_C,
    ARM_SYSREG_CPSR_X,
    ARM_SYSREG_CPSR_S,
    ARM_SYSREG_CPSR_F,
    ARM_SYSREG_APSR,
    ARM_SYSREG_APSR_G,
    ARM_SYSREG_APSR_NZCVQ,
    ARM_SYSREG_APSR_NZCVQG,
    ARM_SYSREG_IAPSR,
    ARM_SYSREG_IAPSR_G,
    ARM_SYSREG_IAPSR_NZCVQG,
    ARM_SYSREG_EAPSR,
    ARM_SYSREG_EAPSR_G,
    ARM_SYSREG_EAPSR_NZCVQG,
    ARM_SYSREG_XPSR,
    ARM_SYSREG_XPSR_G,
    ARM_SYSREG_XPSR_NZCVQG,
    ARM_SYSREG_IPSR,
    ARM_SYSREG_EPSR,
    ARM_SYSREG_IEPSR,
    ARM_SYSREG_MSP,
    ARM_SYSREG_PSP,
    ARM_SYSREG_PRIMASK,
    ARM_SYSREG_BASEPRI,
    ARM_SYSREG_BASEPRI_MAX,
    ARM_SYSREG_FAULTMASK,
    ARM_SYSREG_CONTROL,
}

impl ARMSysreg {
    /// The engine's numeric value.
    pub open spec fn spec_code(self) -> u32 {
        match self {
            ARMSysreg::ARM_SYSREG_INVALID => 0,
            ARMSysreg::ARM_SYSREG_SPSR_C => 1,
            ARMSysreg::ARM_SYSREG_SPSR_X => 2,
            ARMSysreg::ARM_SYSREG_SPSR_S => 4,
            ARMSysreg::ARM_SYSREG_SPSR_F => 8,
            ARMSysreg::ARM_SYSREG_CPSR_C => 16,
            ARMSysreg::ARM_SYSREG_CPSR_X => 32,
            ARMSysreg::ARM_SYSREG_CPSR_S => 64,
            ARMSysreg::ARM_SYSREG_CPSR_F => 128,
            ARMSysreg::ARM_SYSREG_APSR => 256,
            ARMSysreg::ARM_SYSREG_APSR_G => 257,
            ARMSysreg::ARM_SYSREG_APSR_NZCVQ => 258,
            ARMSysreg::ARM_SYSREG_APSR_NZCVQG => 259,
            ARMSysreg::ARM_SYSREG_IAPSR => 260,
            ARMSysreg::ARM_SYSREG_IAPSR_G => 261,
            ARMSysreg::ARM_SYSREG_IAPSR_NZCVQG => 262,
            ARMSysreg::ARM_SYSREG_EAPSR => 263,
            ARMSysreg::ARM_SYSREG_EAPSR_G => 264,
            ARMSysreg::ARM_SYSREG_EAPSR_NZCVQG => 265,
            ARMSysreg::ARM_SYSREG_XPSR => 266,
            ARMSysreg::ARM_SYSREG_XPSR_G => 267,
            ARMSysreg::ARM_SYSREG_XPSR_NZCVQG => 268,
            ARMSysreg::ARM_SYSREG_IPSR => 269,
            ARMSysreg::ARM_SYSREG_EPSR => 270,
            ARMSysreg::ARM_SYSREG_IEPSR => 271,
            ARMSysreg::ARM_SYSREG_MSP => 272,
            ARMSysreg::ARM_SYSREG_PSP => 273,
            ARMSysreg::ARM_SYSREG_PRIMASK => 274,
            ARMSysreg::ARM_SYSREG_BASEPRI => 275,
            ARMSysreg::ARM_SYSREG_BASEPRI_MAX => 276,
            ARMSysreg::ARM_SYSREG_FAULTMASK => 277,
            ARMSysreg::ARM_SYSREG_CONTROL => 278,
        }
    }

    /// The value with the engine's numeric value `v`, if this binding names one.
    pub fn from_raw(v: u32) -> (r: Option<ARMSysreg>)
        ensures
            r matches Some(t) ==> t.spec_code() == v,
            r is Some <==> (v == 0 || v == 1 || v == 2 || v == 4 || v == 8 || v == 16 || v == 32 || v == 64 || v == 128 || 256 <= v <= 278),
    {
        match v {
            0 => Some(ARMSysreg::ARM_SYSREG_INVALID),
            1 => Some(ARMSysreg::ARM_SYSREG_SPSR_C),
            2 => Some(ARMSysreg::ARM_SYSREG_SPSR_X),
            4 => Some(ARMSysreg::ARM_SYSREG_SPSR_S),
            8 => Some(ARMSysreg::ARM_SYSREG_SPSR_F),
            16 => Some(ARMSysreg::ARM_SYSREG_CPSR_C),
            32 => Some(ARMSysreg::ARM_SYSREG_CPSR_X),
            64 => Some(ARMSysreg::ARM_SYSREG_CPSR_S),
            128 => Some(ARMSysreg::ARM_SYSREG_CPSR_F),
            256 => Some(ARMSysreg::ARM_SYSREG_APSR),
            257 => Some(ARMSysreg::ARM_SYSREG_APSR_G),
            258 => Some(ARMSysreg::ARM_SYSREG_APSR_NZCVQ),
            259 => Some(ARMSysreg::ARM_SYSREG_APSR_NZCVQG),
            260 => Some(ARMSysreg::ARM_SYSREG_IAPSR),
            261 => Some(ARMSysreg::ARM_SYSREG_IAPSR_G),
            262 => Some(ARMSysreg::ARM_SYSREG_IAPSR_NZCVQG),
            263 => Some(ARMSysreg::ARM_SYSREG_EAPSR),
            264 => Some(ARMSysreg::ARM_SYSREG_EAPSR_G),
            265 => Some(ARMSysreg::ARM_SYSREG_EAPSR_NZCVQG),
            266 => Some(ARMSysreg::ARM_SYSREG_XPSR),
            267 => Some(ARMSysreg::ARM_SYSREG_XPSR_G),
            268 => Some(ARMSysreg::ARM_SYSREG_XPSR_NZCVQG),
            269 => Some(ARMSysreg::ARM_SYSREG_IPSR),
            270 => Some(ARMSysreg::ARM_SYSREG_EPSR),
            271 => Some(ARMSysreg::ARM_SYSREG_IEPSR),
            272 => Some(ARMSysreg::ARM_SYSREG_MSP),
            273 => Some(ARMSysreg::ARM_SYSREG_PSP),
            274 => Some(ARMSysreg::ARM_SYSREG_PRIMASK),
            275 => Some(ARMSysreg::ARM_SYSREG_BASEPRI),
            276 => Some(ARMSysreg::ARM_SYSREG_BASEPRI_MAX),
            277 => Some(ARMSysreg::ARM_SYSREG_FAULTMASK),
            278 => Some(ARMSysreg::ARM_SYSREG_CONTROL),
            _ => None,
        }
    }
}

/// Shift type of an ARM operand
#[allow(non_camel_case_types)]
#[derive(Clone, Copy, Debug, PartialEq, Eq, Structural)]
pub enum ARMShifter {
    ARM_SFT_INVALID,
    ARM_SFT_ASR,
    ARM_SFT_LSL,
    ARM_SFT_LSR,
    ARM_SFT_ROR,
    ARM_SFT_RRX,
    ARM_SFT_ASR_REG,
    ARM_SFT_LSL_REG,
    ARM_SFT_LSR_REG,
    ARM_SFT_ROR_REG,
    ARM_SFT_RRX_REG,
}

impl ARMShifter {
    /// The engine's numeric value.
    pub open spec fn spec_code(self) -> u32 {
        match self {
            ARMShifter::ARM_SFT_INVALID => 0,
            ARMShifter::ARM_SFT_ASR => 1,
            ARMShifter::ARM_SFT_LSL => 2,
            ARMShifter::ARM_SFT_LSR => 3,
            ARMShifter::ARM_SFT_ROR => 4,
            ARMShifter::ARM_SFT_RRX => 5,
            ARMShifter::ARM_SFT_ASR_REG => 6,
            ARMShifter::ARM_SFT_LSL_REG => 7,
            ARMShifter::ARM_SFT_LSR_REG => 8,
            ARMShifter::ARM_SFT_ROR_REG => 9,
            ARMShifter::ARM_SFT_RRX_REG => 10,
        }
    }

    /// The value with the engine's numeric value `v`, if this binding names one.
    pub fn from_raw(v: u32) -> (r: Option<ARMShifter>)
        ensures
            r matches Some(t) ==> t.spec_code() == v,
            r is Some <==> (v == 0 || v == 1 || v == 2 || v == 3 || v == 4 || v == 5 || v == 6 || v == 7 || v == 8 || v == 9 || v == 10),
    {
        match v {
            0 => Some(ARMShifter::ARM_SFT_INVALID),
            1 => Some(ARMShifter::ARM_SFT_ASR),
            2 => Some(ARMShifter::ARM_SFT_LSL),
            3 => Some(ARMShifter::ARM_SFT_LSR),
            4 => Some(ARMShifter::ARM_SFT_ROR),
            5 => Some(ARMShifter::ARM_SFT_RRX),
            6 => Some(ARMShifter::ARM_SFT_ASR_REG),
            7 => Some(ARMShifter::ARM_SFT_LSL_REG),
            8 => Some(ARMShifter::ARM_SFT_LSR_REG),
            9 => Some(ARMShifter::ARM_SFT_ROR_REG),
            10 => Some(ARMShifter::ARM_SFT_RRX_REG),
            _ => None,
        }
    }
}

/// Whether `v` is the value of a register that `ARMReg` names.
pub open spec fn arm_reg_named(v: u32) -> bool {
    v <= 110
}

/// Whether `v` is the value of a special register that `ARMSysreg` names.
pub open spec fn arm_sysreg_named(v: u32) -> bool {
    v == 0 || v == 1 || v == 2 || v == 4 || v == 8 || v == 16 || v == 32 || v == 64 || v == 128
        || 256 <= v <= 278
}

/// A memory operand for ARM: `[base + index * scale + disp]`.
#[derive(Clone, Copy, Debug, PartialEq, Eq, Structural)]
pub struct ARMOpMem {
    pub base: u32,
    pub index: u32,
    pub scale: i32,
    pub disp: i32,
}

/// Instruction operand data for ARM
#[derive(Clone, Copy, Debug, PartialEq, Eq, Structural)]
pub enum ARMOpData {
    /// Immediate operand
    Imm(u32),
    /// Register operand
    Reg(ARMReg),
    /// Special register operand of MSR/MRS
    Sysreg(ARMSysreg),
    /// Memory operand
    Mem(ARMOpMem),
    /// Operand of SETEND
    Setend(ARMSetendType),
    /// Other operand: a floating-point one, or a type or value that this
    /// binding does not model
    Other,
}

/// Instruction operand for ARM, as the engine stores it.
#[derive(Clone, Copy, Debug, PartialEq, Eq)]
pub struct ARMOp {
    pub vector_index: i32,
    /// The engine's numeric shift type
    pub shift_type: u32,
    pub shift_value: u32,
    /// The engine's numeric operand type
    pub ty: u32,
    /// The payload, two 64-bit words
    pub data: [u64; 2],
    pub subtracted: bool,
}

/// `r` is what an ARM operand with tag `ty` and payload `data` holds.
pub open spec fn arm_op_data_is(ty: u32, data: Seq<u64>, r: ARMOpData) -> bool {
    let v = low_half(data[0]);
    if ty == 2 || ty == 64 || ty == 65 {
        r == ARMOpData::Imm(v)
    } else if ty == 1 {
        if arm_reg_named(v) {
            r matches ARMOpData::Reg(g) && g.spec_code() == v
        } else {
            r == ARMOpData::Other
        }
    } else if ty == 67 {
        if arm_sysreg_named(v) {
            r matches ARMOpData::Sysreg(s) && s.spec_code() == v
        } else {
            r == ARMOpData::Other
        }
    } else if ty == 66 {
        if v <= 2 {
            r matches ARMOpData::Setend(s) && s.spec_code() == v
        } else {
            r == ARMOpData::Other
        }
    } else if ty == 3 {
        r == ARMOpData::Mem(
            ARMOpMem {
                base: low_half(data[0]),
                index: high_half(data[0]),
                scale: low_half(data[1]) as i32,
                disp: high_half(data[1]) as i32,
            },
        )
    } else {
        r == ARMOpData::Other
    }
}

/// `op` is the ARM operand stored at `off` in `p`.
pub open spec fn arm_op_read(op: ARMOp, p: Seq<u8>, off: int) -> bool {
    &&& op.vector_index == le_u32_at(p, off) as i32
    &&& op.shift_type == le_u32_at(p, off + 4)
    &&& op.shift_value == le_u32_at(p, off + 8)
    &&& op.ty == le_u32_at(p, off + 12)
    &&& op.data@ == seq![le_u64_at(p, off + 16), le_u64_at(p, off + 24)]
    &&& op.subtracted == (p[off + 32] != 0)
}

impl ARMOp {
    /// The type of this operand, if its tag is one that this binding names.
    pub fn kind(&self) -> (r: Option<ARMOpType>)
        ensures
            r matches Some(t) ==> t.spec_code() == self.ty,
            r is Some <==> (self.ty <= 4 || 64 <= self.ty <= 67),
    {
        ARMOpType::from_raw(self.ty)
    }

    /// The shift applied to this operand, if its value is one that this
    /// binding names.
    pub fn shifter(&self) -> (r: Option<ARMShifter>)
        ensures
            r matches Some(s) ==> s.spec_code() == self.shift_type,
            r is Some <==> self.shift_type <= 10,
    {
        ARMShifter::from_raw(self.shift_type)
    }

    /// The operand's value, read from the payload as its tag says; a tag,
    /// or a register value, that this binding does not model gives `Other`.
    pub fn data(&self) -> (r: ARMOpData)
        ensures
            arm_op_data_is(self.ty, self.data@, r),
            !(self.ty <= 4 || 64 <= self.ty <= 67) ==> r == ARMOpData::Other,
    {
        let v = low_half_of(self.data[0]);
        if self.ty == 2 || self.ty == 64 || self.ty == 65 {
            ARMOpData::Imm(v)
        } else if self.ty == 1 {
            match ARMReg::from_raw(v) {
                Some(g) => ARMOpData::Reg(g),
                None => ARMOpData::Other,
            }
        } else if self.ty == 67 {
            match ARMSysreg::from_raw(v) {
                Some(s) => ARMOpData::Sysreg(s),
                None => ARMOpData::Other,
            }
        } else if self.ty == 66 {
            match ARMSetendType::from_raw(v) {
                Some(s) => ARMOpData::Setend(s),
                None => ARMOpData::Other,
            }
        } else if self.ty == 3 {
            ARMOpData::Mem(
                ARMOpMem {
                    base: low_half_of(self.data[0]),
                    index: high_half_of(self.data[0]),
                    scale: low_half_of(self.data[1]) as i32,
                    disp: high_half_of(self.data[1]) as i32,
                },
            )
        } else {
            ARMOpData::Other
        }
    }
}

fn read_arm_op(p: &[u8], off: usize) -> (op: ARMOp)
    requires
        p@.len() == ARCH_PAYLOAD_SIZE,
        off + ARM_OP_SIZE <= p@.len(),
    ensures
        arm_op_read(op, p@, off as int),
{
    let data = [read_u64(p, off + 16), read_u64(p, off + 24)];
    ARMOp {
        vector_index: read_u32(p, off) as i32,
        shift_type: read_u32(p, off + 4),
        shift_value: read_u32(p, off + 8),
        ty: read_u32(p, off + 12),
        data,
        subtracted: p[off + 32] != 0,
    }
}

/// Platform-specific instruction detail for ARM
#[derive(Debug)]
pub struct ARMDetail {
    usermode: bool,
    vector_size: i32,
    vector_data: u32,
    cps_mode: Option<ARMCPSMode>,
    cps_flag: u32,
    cc: Option<ARMCC>,
    update_flags: bool,
    writeback: bool,
    mem_barrier: u32,
    op_count: u32,
    operands: Vec<ARMOp>,
}

/// A `ARMDetail` as contracts see it.
pub struct ARMDetailView {
    /// Whether the instruction accesses user-mode registers
    pub usermode: bool,
    /// Scalar size for vector instructions
    pub vector_size: i32,
    /// Data type of the elements of vector instructions
    pub vector_data: u32,
    /// The CPS mode, if its value is one that this binding names
    pub cps_mode: Option<ARMCPSMode>,
    /// The CPS flags, `ARMCPSFlag` values ORed together
    pub cps_flag: u32,
    /// The condition code, if its value is one that this binding names
    pub cc: Option<ARMCC>,
    /// Whether the instruction updates the flags
    pub update_flags: bool,
    /// Whether the instruction writes back
    pub writeback: bool,
    /// Memory barrier option
    pub mem_barrier: u32,
    /// The number of operands that the engine reported (one byte in the layout)
    pub op_count: u32,
    /// The operands that the count field makes visible
    pub operands: Seq<ARMOp>,
}

/// `d` is the ARM layout stored at the start of `p`.
pub open spec fn arm_detail_read(d: ARMDetail, p: Seq<u8>) -> bool {
    &&& d@.usermode == (p[0] != 0)
    &&& d@.vector_size == le_u32_at(p, 4) as i32
    &&& d@.vector_data == le_u32_at(p, 8)
    &&& (d@.cps_mode matches Some(m) ==> m.spec_code() == le_u32_at(p, 12))
    &&& (d@.cps_mode is Some <==> (le_u32_at(p, 12) == 0 || le_u32_at(p, 12) == 2 || le_u32_at(p, 12) == 3))
    &&& d@.cps_flag == le_u32_at(p, 16)
    &&& (d@.cc matches Some(c) ==> c.spec_code() == le_u32_at(p, 20))
    &&& (d@.cc is Some <==> le_u32_at(p, 20) <= 15)
    &&& d@.update_flags == (p[24] != 0)
    &&& d@.writeback == (p[25] != 0)
    &&& d@.mem_barrier == le_u32_at(p, 28)
    &&& d@.op_count == p[32] as u32
    &&& d@.operands.len() == visible_count(p[32] as int, ARM_MAX_OPERANDS as int)
    &&& forall|i: int|
        0 <= i < d@.operands.len() ==> arm_op_read(
            #[trigger] d@.operands[i],
            p,
            ARM_OPERANDS_OFFSET + i * ARM_OP_SIZE,
        )
}

impl View for ARMDetail {
    type V = ARMDetailView;

    closed spec fn view(&self) -> ARMDetailView {
        ARMDetailView {
            usermode: self.usermode,
            vector_size: self.vector_size,
            vector_data: self.vector_data,
            cps_mode: self.cps_mode,
            cps_flag: self.cps_flag,
            cc: self.cc,
            update_flags: self.update_flags,
            writeback: self.writeback,
            mem_barrier: self.mem_barrier,
            op_count: self.op_count,
            operands: self.operands@,
        }
    }
}

impl ARMDetail {
    #[verifier::type_invariant]
    closed spec fn inv(self) -> bool {
        self.operands@.len() == visible_count(self.op_count as int, ARM_MAX_OPERANDS as int)
    }

    /// Whether the instruction accesses user-mode registers
    pub fn usermode(&self) -> (r: bool)
        ensures
            r == self@.usermode,
    {
        self.usermode
    }

    /// Scalar size for vector instructions
    pub fn vector_size(&self) -> (r: i32)
        ensures
            r == self@.vector_size,
    {
        self.vector_size
    }

    /// Data type of the elements of vector instructions
    pub fn vector_data(&self) -> (r: u32)
        ensures
            r == self@.vector_data,
    {
        self.vector_data
    }

    /// The CPS mode, if its value is one that this binding names
    pub fn cps_mode(&self) -> (r: Option<ARMCPSMode>)
        ensures
            r == self@.cps_mode,
    {
        self.cps_mode
    }

    /// The CPS flags, `ARMCPSFlag` values ORed together
    pub fn cps_flag(&self) -> (r: u32)
        ensures
            r == self@.cps_flag,
    {
        self.cps_flag
    }

    /// The condition code, if its value is one that this binding names
    pub fn cc(&self) -> (r: Option<ARMCC>)
        ensures
            r == self@.cc,
    {
        self.cc
    }

    /// Whether the instruction updates the flags
    pub fn update_flags(&self) -> (r: bool)
        ensures
            r == self@.update_flags,
    {
        self.update_flags
    }

    /// Whether the instruction writes back
    pub fn writeback(&self) -> (r: bool)
        ensures
            r == self@.writeback,
    {
        self.writeback
    }

    /// Memory barrier option
    pub fn mem_barrier(&self) -> (r: u32)
        ensures
            r == self@.mem_barrier,
    {
        self.mem_barrier
    }

    /// The number of operands that the engine reported (one byte in the layout)
    pub fn op_count(&self) -> (r: u32)
        ensures
            r == self@.op_count,
    {
        self.op_count
    }

    /// The operands, as many as the engine's count says (at most the
    /// array's capacity).
    pub fn operands(&self) -> (r: &[ARMOp])
        ensures
            r@ == self@.operands,
            r@.len() == visible_count(self@.op_count as int, ARM_MAX_OPERANDS as int),
    {
        proof {
            use_type_invariant(self);
        }
        self.operands.as_slice()
    }

    /// Reads the ARM layout at the start of an architecture payload.
    pub(crate) fn parse(p: &[u8]) -> (d: ARMDetail)
        requires
            p@.len() == ARCH_PAYLOAD_SIZE,
        ensures
            arm_detail_read(d, p@),
    {
        let count = p[32];
        let n: usize = if count as usize <= ARM_MAX_OPERANDS {
            count as usize
        } else {
            ARM_MAX_OPERANDS
        };
        let mut operands: Vec<ARMOp> = Vec::new();
        let mut i: usize = 0;
        while i < n
            invariant
                n == visible_count(count as int, ARM_MAX_OPERANDS as int),
                p@.len() == ARCH_PAYLOAD_SIZE,
                i <= n,
                operands@.len() == i,
                forall|j: int|
                    0 <= j < i ==> arm_op_read(
                        #[trigger] operands@[j],
                        p@,
                        ARM_OPERANDS_OFFSET + j * ARM_OP_SIZE,
                    ),
            decreases n - i,
        {
            let op = read_arm_op(p, ARM_OPERANDS_OFFSET + i * ARM_OP_SIZE);
            operands.push(op);
            i += 1;
        }
        ARMDetail {
            usermode: p[0] != 0,
            vector_size: read_u32(p, 4) as i32,
            vector_data: read_u32(p, 8),
            cps_mode: ARMCPSMode::from_raw(read_u32(p, 12)),
            cps_flag: read_u32(p, 16),
            cc: ARMCC::from_raw(read_u32(p, 20)),
            update_flags: p[24] != 0,
            writeback: p[25] != 0,
            mem_barrier: read_u32(p, 28),
            op_count: count as u32,
            operands,
        }
    }
}

} // verus!
