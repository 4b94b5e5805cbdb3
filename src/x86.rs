use crate::layout::{
    high_half, high_half_of, le_u32_at, le_u64_at, low_half, low_half_of, read_u32, read_u64,
    visible_count, ARCH_PAYLOAD_SIZE,
};
use vstd::prelude::*;

verus! {

/// Size of the x86 layout inside the detail block.
pub const X86_DETAIL_SIZE: usize = 432;
/// Where the operand array starts inside the x86 layout.
pub const X86_OPERANDS_OFFSET: usize = 48;
/// Size of one x86 operand.
pub const X86_OP_SIZE: usize = 48;
/// Capacity of the x86 operand array.
pub const X86_MAX_OPERANDS: usize = 8;

/// Instruction operand type for Intel x86 family
#[allow(non_camel_case_types)]
#[derive(Clone, Copy, Debug, PartialEq, Eq, Structural)]
pub enum X86OpType {
    /// Uninitialized
    X86_OP_INVALID,
    /// Register operand
    X86_OP_REG,
    /// Immediate operand
    X86_OP_IMM,
    /// Memory operand
    X86_OP_MEM,
    /// Floating-Point operand
    X86_OP_FP,
}

impl X86OpType {
    /// The engine's numeric value of this operand type.
    pub open spec fn spec_code(self) -> u32 {
        match self {
            X86OpType::X86_OP_INVALID => 0,
            X86OpType::X86_OP_REG => 1,
            X86OpType::X86_OP_IMM => 2,
            X86OpType::X86_OP_MEM => 3,
            X86OpType::X86_OP_FP => 4,
        }
    }

    /// The operand type with the engine's numeric value `v`, if it is one
    /// that this binding names.
    pub fn from_raw(v: u32) -> (r: Option<X86OpType>)
        ensures
            r matches Some(t) ==> t.spec_code() == v,
            r is None <==> v > 4,
    {
        match v {
            0 => Some(X86OpType::X86_OP_INVALID),
            1 => Some(X86OpType::X86_OP_REG),
            2 => Some(X86OpType::X86_OP_IMM),
            3 => Some(X86OpType::X86_OP_MEM),
            4 => Some(X86OpType::X86_OP_FP),
            _ => None,
        }
    }
}

/// A memory operand for Intel x86 family: `segment:[base + index * scale + disp]`.
#[derive(Clone, Copy, Debug, PartialEq, Eq, Structural)]
pub struct X86OpMem {
    pub segment: u32,
    pub base: u32,
    pub index: u32,
    pub scale: i32,
    pub disp: i64,
}

/// Instruction operand data for Intel x86 family
#[derive(Clone, Copy, Debug, PartialEq, Eq, Structural)]
pub enum X86OpData {
    /// Register operand
    Reg(u32),
    /// Immediate operand
    Imm(i64),
    /// Memory operand
    Mem(X86OpMem),
    /// Other operand: a floating-point one, or a type that this binding
    /// does not model
    Other,
}

/// Instruction operand for Intel x86 family, as the engine stores it: a
/// type tag, and a payload whose meaning depends on the tag.
#[derive(Clone, Copy, Debug, PartialEq, Eq)]
pub struct X86Op {
    /// The engine's numeric operand type
    pub ty: u32,
    /// The payload, three 64-bit words
    pub data: [u64; 3],
    /// Size of the operand in bytes
    pub size: u8,
    /// AVX broadcast type
    pub avx_bcast: u32,
    /// AVX zero opmask
    pub avx_zero_opmask: bool,
}

/// What an x86 operand with tag `ty` and payload `data` holds.
pub open spec fn x86_op_data(ty: u32, data: Seq<u64>) -> X86OpData {
    if ty == 1 {
        X86OpData::Reg(low_half(data[0]))
    } else if ty == 2 {
        X86OpData::Imm(data[0] as i64)
    } else if ty == 3 {
        X86OpData::Mem(
            X86OpMem {
                segment: low_half(data[0]),
                base: high_half(data[0]),
                index: low_half(data[1]),
                scale: high_half(data[1]) as i32,
                disp: data[2] as i64,
            },
        )
    } else {
        X86OpData::Other
    }
}

/// `op` is the x86 operand stored at `off` in `p`.
pub open spec fn x86_op_read(op: X86Op, p: Seq<u8>, off: int) -> bool {
    &&& op.ty == le_u32_at(p, off)
    &&& op.data@ == seq![le_u64_at(p, off + 8), le_u64_at(p, off + 16), le_u64_at(p, off + 24)]
    &&& op.size == p[off + 32]
    &&& op.avx_bcast == le_u32_at(p, off + 36)
    &&& op.avx_zero_opmask == (p[off + 40] != 0)
}

impl X86Op {
    /// The type of this operand, if its tag is one that this binding names.
    pub fn kind(&self) -> (r: Option<X86OpType>)
        ensures
            r matches Some(t) ==> t.spec_code() == self.ty,
            r is None <==> self.ty > 4,
    {
        X86OpType::from_raw(self.ty)
    }

    /// The operand's value, read from the payload as its tag says; a tag
    /// that this binding does not model gives `Other`.
    pub fn data(&self) -> (r: X86OpData)
        ensures
            r == x86_op_data(self.ty, self.data@),
            self.ty > 4 ==> r == X86OpData::Other,
    {
        if self.ty == 1 {
            X86OpData::Reg(low_half_of(self.data[0]))
        } else if self.ty == 2 {
            X86OpData::Imm(self.data[0] as i64)
        } else if self.ty == 3 {
            X86OpData::Mem(
                X86OpMem {
                    segment: low_half_of(self.data[0]),
                    base: high_half_of(self.data[0]),
                    index: low_half_of(self.data[1]),
                    scale: high_half_of(self.data[1]) as i32,
                    disp: self.data[2] as i64,
                },
            )
        } else {
            X86OpData::Other
        }
    }
}

fn read_x86_op(p: &[u8], off: usize) -> (op: X86Op)
    requires
        p@.len() == ARCH_PAYLOAD_SIZE,
        off + X86_OP_SIZE <= p@.len(),
    ensures
        x86_op_read(op, p@, off as int),
{
    let data = [read_u64(p, off + 8), read_u64(p, off + 16), read_u64(p, off + 24)];
    X86Op {
        ty: read_u32(p, off),
        data,
        size: p[off + 32],
        avx_bcast: read_u32(p, off + 36),
        avx_zero_opmask: p[off + 40] != 0,
    }
}

/// Platform-specific instruction detail for Intel x86 family
#[derive(Debug)]
pub struct X86Detail {
    prefix: [u8; 4],
    opcode: [u8; 4],
    rex: u8,
    addr_size: u8,
    modrm: u8,
    sib: u8,
    disp: u32,
    sib_index: u32,
    sib_scale: u8,
    sib_base: u32,
    sse_cc: u32,
    avx_cc: u32,
    avx_sae: u8,
    avx_rm: u32,
    op_count: u8,
    operands: Vec<X86Op>,
}

/// A `X86Detail` as contracts see it.
pub struct X86DetailView {
    /// Instruction prefix bytes
    pub prefix: [u8; 4],
    /// Opcode bytes
    pub opcode: [u8; 4],
    /// REX prefix (x86-64 only)
    pub rex: u8,
    /// Address size
    pub addr_size: u8,
    /// ModR/M byte
    pub modrm: u8,
    /// SIB byte
    pub sib: u8,
    /// Displacement
    pub disp: u32,
    /// SIB index register
    pub sib_index: u32,
    /// SIB scale
    pub sib_scale: u8,
    /// SIB base register
    pub sib_base: u32,
    /// SSE condition code
    pub sse_cc: u32,
    /// AVX condition code
    pub avx_cc: u32,
    /// AVX suppress-all-exceptions flag
    pub avx_sae: u8,
    /// AVX rounding mode
    pub avx_rm: u32,
    /// The number of operands that the engine reported
    pub op_count: u8,
    /// The operands that the count field makes visible
    pub operands: Seq<X86Op>,
}

/// `d` is the x86 layout stored at the start of `p`.
pub open spec fn x86_detail_read(d: X86Detail, p: Seq<u8>) -> bool {
    &&& d@.prefix@ == p.subrange(0, 4)
    &&& d@.opcode@ == p.subrange(4, 8)
    &&& d@.rex == p[8]
    &&& d@.addr_size == p[9]
    &&& d@.modrm == p[10]
    &&& d@.sib == p[11]
    &&& d@.disp == le_u32_at(p, 12)
    &&& d@.sib_index == le_u32_at(p, 16)
    &&& d@.sib_scale == p[20]
    &&& d@.sib_base == le_u32_at(p, 24)
    &&& d@.sse_cc == le_u32_at(p, 28)
    &&& d@.avx_cc == le_u32_at(p, 32)
    &&& d@.avx_sae == p[36]
    &&& d@.avx_rm == le_u32_at(p, 40)
    &&& d@.op_count == p[44]
    &&& d@.operands.len() == visible_count(p[44] as int, X86_MAX_OPERANDS as int)
    &&& forall|i: int|
        0 <= i < d@.operands.len() ==> x86_op_read(
            #[trigger] d@.operands[i],
            p,
            X86_OPERANDS_OFFSET + i * X86_OP_SIZE,
        )
}

impl View for X86Detail {
    type V = X86DetailView;

    closed spec fn view(&self) -> X86DetailView {
        X86DetailView {
            prefix: self.prefix,
            opcode: self.opcode,
            rex: self.rex,
            addr_size: self.addr_size,
            modrm: self.modrm,
            sib: self.sib,
            disp: self.disp,
            sib_index: self.sib_index,
            sib_scale: self.sib_scale,
            sib_base: self.sib_base,
            sse_cc: self.sse_cc,
            avx_cc: self.avx_cc,
            avx_sae: self.avx_sae,
            avx_rm: self.avx_rm,
            op_count: self.op_count,
            operands: self.operands@,
        }
    }
}

impl X86Detail {
    #[verifier::type_invariant]
    closed spec fn inv(self) -> bool {
        self.operands@.len() == visible_count(self.op_count as int, X86_MAX_OPERANDS as int)
    }

    /// Instruction prefix bytes
    pub fn prefix(&self) -> (r: [u8; 4])
        ensures
            r == self@.prefix,
    {
        self.prefix
    }

    /// Opcode bytes
    pub fn opcode(&self) -> (r: [u8; 4])
        ensures
            r == self@.opcode,
    {
        self.opcode
    }

    /// REX prefix (x86-64 only)
    pub fn rex(&self) -> (r: u8)
        ensures
            r == self@.rex,
    {
        self.rex
    }

    /// Address size
    pub fn addr_size(&self) -> (r: u8)
        ensures
            r == self@.addr_size,
    {
        self.addr_size
    }

    /// ModR/M byte
    pub fn modrm(&self) -> (r: u8)
        ensures
            r == self@.modrm,
    {
        self.modrm
    }

    /// SIB byte
    pub fn sib(&self) -> (r: u8)
        ensures
            r == self@.sib,
    {
        self.sib
    }

    /// Displacement
    pub fn disp(&self) -> (r: u32)
        ensures
            r == self@.disp,
    {
        self.disp
    }

    /// SIB index register
    pub fn sib_index(&self) -> (r: u32)
        ensures
            r == self@.sib_index,
    {
        self.sib_index
    }

    /// SIB scale
    pub fn sib_scale(&self) -> (r: u8)
        ensures
            r == self@.sib_scale,
    {
        self.sib_scale
    }

    /// SIB base register
    pub fn sib_base(&self) -> (r: u32)
        ensures
            r == self@.sib_base,
    {
        self.sib_base
    }

    /// SSE condition code
    pub fn sse_cc(&self) -> (r: u32)
        ensures
            r == self@.sse_cc,
    {
        self.sse_cc
    }

    /// AVX condition code
    pub fn avx_cc(&self) -> (r: u32)
        ensures
            r == self@.avx_cc,
    {
        self.avx_cc
    }

    /// AVX suppress-all-exceptions flag
    pub fn avx_sae(&self) -> (r: u8)
        ensures
            r == self@.avx_sae,
    {
        self.avx_sae
    }

    /// AVX rounding mode
    pub fn avx_rm(&self) -> (r: u32)
        ensures
            r == self@.avx_rm,
    {
        self.avx_rm
    }

    /// The number of operands that the engine reported
    pub fn op_count(&self) -> (r: u8)
        ensures
            r == self@.op_count,
    {
        self.op_count
    }

    /// The operands, as many as the engine's count says (at most the
    /// array's capacity).
    pub fn operands(&self) -> (r: &[X86Op])
        ensures
            r@ == self@.operands,
            r@.len() == visible_count(self@.op_count as int, X86_MAX_OPERANDS as int),
    {
        proof {
            use_type_invariant(self);
        }
        self.operands.as_slice()
    }

    /// Reads the x86 layout at the start of an architecture payload.
    pub(crate) fn parse(p: &[u8]) -> (d: X86Detail)
        requires
            p@.len() == ARCH_PAYLOAD_SIZE,
        ensures
            x86_detail_read(d, p@),
    {
        let count = p[44];
        let n: usize = if count as usize <= X86_MAX_OPERANDS {
            count as usize
        } else {
            X86_MAX_OPERANDS
        };
        let mut operands: Vec<X86Op> = Vec::new();
        let mut i: usize = 0;
        while i < n
            invariant
                n == visible_count(count as int, X86_MAX_OPERANDS as int),
                p@.len() == ARCH_PAYLOAD_SIZE,
                i <= n,
                operands@.len() == i,
                forall|j: int|
                    0 <= j < i ==> x86_op_read(
                        #[trigger] operands@[j],
                        p@,
                        X86_OPERANDS_OFFSET + j * X86_OP_SIZE,
                    ),
            decreases n - i,
        {
            let op = read_x86_op(p, X86_OPERANDS_OFFSET + i * X86_OP_SIZE);
            operands.push(op);
            i += 1;
        }
        let prefix = [p[0], p[1], p[2], p[3]];
        let opcode = [p[4], p[5], p[6], p[7]];
        assert(prefix@ =~= p@.subrange(0, 4));
        assert(opcode@ =~= p@.subrange(4, 8));
        X86Detail {
            prefix,
            opcode,
            rex: p[8],
            addr_size: p[9],
            modrm: p[10],
            sib: p[11],
            disp: read_u32(p, 12),
            sib_index: read_u32(p, 16),
            sib_scale: p[20],
            sib_base: read_u32(p, 24),
            sse_cc: read_u32(p, 28),
            avx_cc: read_u32(p, 32),
            avx_sae: p[36],
            avx_rm: read_u32(p, 40),
            op_count: count,
            operands,
        }
    }
}

} // verus!
