use crate::layout::{le_u32_at, read_u32, visible_count, ARCH_PAYLOAD_SIZE};
use vstd::prelude::*;

verus! {

/// Size of the PowerPC layout inside the detail block.
pub const PPC_DETAIL_SIZE: usize = 140;
/// Where the operand array starts inside the PowerPC layout.
pub const PPC_OPERANDS_OFFSET: usize = 12;
/// Size of one PowerPC operand.
pub const PPC_OP_SIZE: usize = 16;
/// Capacity of the PowerPC operand array.
pub const PPC_MAX_OPERANDS: usize = 8;

/// Instruction operand type for PowerPC
#[allow(non_camel_case_types)]
#[derive(Clone, Copy, Debug, PartialEq, Eq, Structural)]
pub enum PPCOpType {
    /// Uninitialized
    PPC_OP_INVALID,
    /// Register operand
    PPC_OP_REG,
    /// Immediate operand
    PPC_OP_IMM,
    /// Memory operand
    PPC_OP_MEM,
}

impl PPCOpType {
    /// The engine's numeric value.
    pub open spec fn spec_code(self) -> u32 {
        match self {
            PPCOpType::PPC_OP_INVALID => 0,
            PPCOpType::PPC_OP_REG => 1,
            PPCOpType::PPC_OP_IMM => 2,
            PPCOpType::PPC_OP_MEM => 3,
        }
    }

    /// The engine's numeric value.
    pub fn code(&self) -> (r: u32)
        ensures
            r == self.spec_code(),
    {
        match self {
            PPCOpType::PPC_OP_INVALID => 0,
            PPCOpType::PPC_OP_REG => 1,
            PPCOpType::PPC_OP_IMM => 2,
            PPCOpType::PPC_OP_MEM => 3,
        }
    }

    /// The value with the engine's numeric value `v`, if this binding names one.
    pub fn from_raw(v: u32) -> (r: Option<PPCOpType>)
        ensures
            r matches Some(t) ==> t.spec_code() == v,
            r is Some <==> (v == 0 || v == 1 || v == 2 || v == 3),
    {
        match v {
            0 => Some(PPCOpType::PPC_OP_INVALID),
            1 => Some(PPCOpType::PPC_OP_REG),
            2 => Some(PPCOpType::PPC_OP_IMM),
            3 => Some(PPCOpType::PPC_OP_MEM),
            _ => None,
        }
    }
}

/// A memory operand for PowerPC: `disp(base)`.
#[derive(Clone, Copy, Debug, PartialEq, Eq, Structural)]
pub struct PPCOpMem {
    pub base: u32,
    pub disp: i32,
}

/// Instruction operand data for PowerPC
#[derive(Clone, Copy, Debug, PartialEq, Eq, Structural)]
pub enum PPCOpData {
    /// Register operand
    Reg(u32),
    /// Immediate operand
    Imm(u32),
    /// Memory operand
    Mem(PPCOpMem),
    /// Other operand: a type that this binding does not model
    Other,
}

/// Instruction operand for PowerPC, as the engine stores it.
#[derive(Clone, Copy, Debug, PartialEq, Eq)]
pub struct PPCOp {
    /// The engine's numeric operand type
    pub ty: u32,
    /// The payload, three 32-bit words
    pub data: [u32; 3],
}

/// What a PowerPC operand with tag `ty` and payload `data` holds.
pub open spec fn ppc_op_data(ty: u32, data: Seq<u32>) -> PPCOpData {
    if ty == 1 {
        PPCOpData::Reg(data[0])
    } else if ty == 2 {
        PPCOpData::Imm(data[0])
    } else if ty == 3 {
        PPCOpData::Mem(PPCOpMem { base: data[0], disp: data[1] as i32 })
    } else {
        PPCOpData::Other
    }
}

/// `op` is the PowerPC operand stored at `off` in `p`.
pub open spec fn ppc_op_read(op: PPCOp, p: Seq<u8>, off: int) -> bool {
    &&& op.ty == le_u32_at(p, off)
    &&& op.data@ == seq![le_u32_at(p, off + 4), le_u32_at(p, off + 8), le_u32_at(p, off + 12)]
}

impl PPCOp {
    /// The type of this operand, if its tag is one that this binding names.
    pub fn kind(&self) -> (r: Option<PPCOpType>)
        ensures
            r matches Some(t) ==> t.spec_code() == self.ty,
            r is Some <==> self.ty <= 3,
    {
        PPCOpType::from_raw(self.ty)
    }

    /// The operand's value, read from the payload as its tag says; a tag
    /// that this binding does not model gives `Other`.
    pub fn data(&self) -> (r: PPCOpData)
        ensures
            r == ppc_op_data(self.ty, self.data@),
            self.ty > 3 ==> r == PPCOpData::Other,
    {
        if self.ty == 1 {
            PPCOpData::Reg(self.data[0])
        } else if self.ty == 2 {
            PPCOpData::Imm(self.data[0])
        } else if self.ty == 3 {
            PPCOpData::Mem(PPCOpMem { base: self.data[0], disp: self.data[1] as i32 })
        } else {
            PPCOpData::Other
        }
    }
}

fn read_ppc_op(p: &[u8], off: usize) -> (op: PPCOp)
    requires
        p@.len() == ARCH_PAYLOAD_SIZE,
        off + PPC_OP_SIZE <= p@.len(),
    ensures
        ppc_op_read(op, p@, off as int),
{
    let data = [read_u32(p, off + 4), read_u32(p, off + 8), read_u32(p, off + 12)];
    PPCOp { ty: read_u32(p, off), data }
}

/// Platform-specific instruction detail for PowerPC
#[derive(Debug)]
pub struct PPCDetail {
    ppc_bc: u32,
    ppc_bh: u32,
    update_cr0: bool,
    op_count: u8,
    operands: Vec<PPCOp>,
}

/// A `PPCDetail` as contracts see it.
pub struct PPCDetailView {
    /// Branch code
    pub ppc_bc: u32,
    /// Branch hint
    pub ppc_bh: u32,
    /// Whether the instruction updates CR0
    pub update_cr0: bool,
    /// The number of operands that the engine reported
    pub op_count: u8,
    /// The operands that the count field makes visible
    pub operands: Seq<PPCOp>,
}

/// `d` is the PowerPC layout stored at the start of `p`.
pub open spec fn ppc_detail_read(d: PPCDetail, p: Seq<u8>) -> bool {
    &&& d@.ppc_bc == le_u32_at(p, 0)
    &&& d@.ppc_bh == le_u32_at(p, 4)
    &&& d@.update_cr0 == (p[8] != 0)
    &&& d@.op_count == p[9]
    &&& d@.operands.len() == visible_count(p[9] as int, PPC_MAX_OPERANDS as int)
    &&& forall|i: int|
        0 <= i < d@.operands.len() ==> ppc_op_read(
            #[trigger] d@.operands[i],
            p,
            PPC_OPERANDS_OFFSET + i * PPC_OP_SIZE,
        )
}

impl View for PPCDetail {
    type V = PPCDetailView;

    closed spec fn view(&self) -> PPCDetailView {
        PPCDetailView {
            ppc_bc: self.ppc_bc,
            ppc_bh: self.ppc_bh,
            update_cr0: self.update_cr0,
            op_count: self.op_count,
            operands: self.operands@,
        }
    }
}

impl PPCDetail {
    #[verifier::type_invariant]
    closed spec fn inv(self) -> bool {
        self.operands@.len() == visible_count(self.op_count as int, PPC_MAX_OPERANDS as int)
    }

    /// Branch code
    pub fn ppc_bc(&self) -> (r: u32)
        ensures
            r == self@.ppc_bc,
    {
        self.ppc_bc
    }

    /// Branch hint
    pub fn ppc_bh(&self) -> (r: u32)
        ensures
            r == self@.ppc_bh,
    {
        self.ppc_bh
    }

    /// Whether the instruction updates CR0
    pub fn update_cr0(&self) -> (r: bool)
        ensures
            r == self@.update_cr0,
    {
        self.update_cr0
    }

    /// The number of operands that the engine reported
    pub fn op_count(&self) -> (r: u8)
        ensures
            r == self@.op_count,
    {
        self.op_count
    }

    /// The operands, as many as the engine's count says (at most the
    /// array's capacity).
    pub fn operands(&self) -> (r: &[PPCOp])
        ensures
            r@ == self@.operands,
            r@.len() == visible_count(self@.op_count as int, PPC_MAX_OPERANDS as int),
    {
        proof {
            use_type_invariant(self);
        }
        self.operands.as_slice()
    }

    /// Reads the PowerPC layout at the start of an architecture payload.
    pub(crate) fn parse(p: &[u8]) -> (d: PPCDetail)
        requires
            p@.len() == ARCH_PAYLOAD_SIZE,
        ensures
            ppc_detail_read(d, p@),
    {
        let count = p[9];
        let n: usize = if count as usize <= PPC_MAX_OPERANDS {
            count as usize
        } else {
            PPC_MAX_OPERANDS
        };
        let mut operands: Vec<PPCOp> = Vec::new();
        let mut i: usize = 0;
        while i < n
            invariant
                n == visible_count(count as int, PPC_MAX_OPERANDS as int),
                p@.len() == ARCH_PAYLOAD_SIZE,
                i <= n,
                operands@.len() == i,
                forall|j: int|
                    0 <= j < i ==> ppc_op_read(
                        #[trigger] operands@[j],
                        p@,
                        PPC_OPERANDS_OFFSET + j * PPC_OP_SIZE,
                    ),
            decreases n - i,
        {
            let op = read_ppc_op(p, PPC_OPERANDS_OFFSET + i * PPC_OP_SIZE);
            operands.push(op);
            i += 1;
        }
        PPCDetail {
            ppc_bc: read_u32(p, 0),
            ppc_bh: read_u32(p, 4),
            update_cr0: p[8] != 0,
            op_count: count,
            operands,
        }
    }
}

} // verus!
