use crate::arm::{arm_detail_read, ARMDetail};
use crate::config::CsArch;
use crate::ppc::{ppc_detail_read, PPCDetail};
use crate::text::{c_text, text_of};
use crate::layout::{visible_count, ARCH_PAYLOAD_SIZE};
use crate::x86::{x86_detail_read, X86Detail};
use vstd::prelude::*;

verus! {

/// Capacity of the list of registers read.
pub const REGS_READ_CAP: usize = 12;
/// Capacity of the list of registers written.
pub const REGS_WRITE_CAP: usize = 20;
/// Capacity of the list of groups.
pub const GROUPS_CAP: usize = 8;
/// Capacity of the raw bytes of an instruction.
pub const INSN_BYTES_CAP: usize = 16;
/// Capacity of the mnemonic buffer, its NUL included.
pub const MNEMONIC_CAP: usize = 32;
/// Capacity of the operand text buffer, its NUL included.
pub const OP_STR_CAP: usize = 160;

/// Instruction groups common to every architecture.
#[allow(non_camel_case_types)]
#[derive(Clone, Copy, Debug, PartialEq, Eq, Structural)]
pub enum CsGroup {
    /// Invalid group
    CS_GRP_INVALID,
    /// Jump instruction (jmp, bl, xbegin, etc)
    CS_GRP_JUMP,
    /// Procedure call instruction (call)
    CS_GRP_CALL,
    /// Procedure return instruction (ret)
    CS_GRP_RET,
    /// Interrupt instruction (int, swi)
    CS_GRP_INT,
    /// Interrupt return instruction (iret)
    CS_GRP_IRET,
}

impl CsGroup {
    /// The engine's numeric value of this group.
    pub open spec fn spec_id(self) -> u8 {
        match self {
            CsGroup::CS_GRP_INVALID => 0,
            CsGroup::CS_GRP_JUMP => 1,
            CsGroup::CS_GRP_CALL => 2,
            CsGroup::CS_GRP_RET => 3,
            CsGroup::CS_GRP_INT => 4,
            CsGroup::CS_GRP_IRET => 5,
        }
    }

    /// The engine's numeric value of this group.
    pub fn id(&self) -> (r: u8)
        ensures
            r == self.spec_id(),
    {
        match self {
            CsGroup::CS_GRP_INVALID => 0,
            CsGroup::CS_GRP_JUMP => 1,
            CsGroup::CS_GRP_CALL => 2,
            CsGroup::CS_GRP_RET => 3,
            CsGroup::CS_GRP_INT => 4,
            CsGroup::CS_GRP_IRET => 5,
        }
    }

    /// The common group with the engine's numeric value `v`; the others are
    /// specific to an architecture.
    pub fn from_id(v: u8) -> (r: Option<CsGroup>)
        ensures
            r matches Some(g) ==> g.spec_id() == v,
            r is Some <==> v <= 5,
    {
        match v {
            0 => Some(CsGroup::CS_GRP_INVALID),
            1 => Some(CsGroup::CS_GRP_JUMP),
            2 => Some(CsGroup::CS_GRP_CALL),
            3 => Some(CsGroup::CS_GRP_RET),
            4 => Some(CsGroup::CS_GRP_INT),
            5 => Some(CsGroup::CS_GRP_IRET),
            _ => None,
        }
    }
}

/// Architecture independent instruction detail, together with the
/// architecture of the engine that filled it in, which decides how the
/// architecture-specific payload is read.
#[derive(Clone, Debug)]
pub struct InsnDetail {
    arch: CsArch,
    regs_read: [u8; REGS_READ_CAP],
    regs_read_count: u8,
    regs_write: [u8; REGS_WRITE_CAP],
    regs_write_count: u8,
    groups: [u8; GROUPS_CAP],
    groups_count: u8,
    arch_data: [u8; ARCH_PAYLOAD_SIZE],
}

impl InsnDetail {
    /// The architecture of the engine that filled this block in.
    pub closed spec fn spec_arch(self) -> CsArch {
        self.arch
    }

    /// The registers read, as many as the count field says.
    pub closed spec fn spec_regs_read(self) -> Seq<u8> {
        self.regs_read@.take(visible_count(self.regs_read_count as int, REGS_READ_CAP as int))
    }

    /// The registers written, as many as the count field says.
    pub closed spec fn spec_regs_write(self) -> Seq<u8> {
        self.regs_write@.take(visible_count(self.regs_write_count as int, REGS_WRITE_CAP as int))
    }

    /// The groups, as many as the count field says.
    pub closed spec fn spec_groups(self) -> Seq<u8> {
        self.groups@.take(visible_count(self.groups_count as int, GROUPS_CAP as int))
    }

    /// The architecture-specific payload.
    pub closed spec fn spec_payload(self) -> Seq<u8> {
        self.arch_data@
    }

    /// A detail block as the engine of architecture `arch` filled it in.
    pub fn new(
        arch: CsArch,
        regs_read: [u8; REGS_READ_CAP],
        regs_read_count: u8,
        regs_write: [u8; REGS_WRITE_CAP],
        regs_write_count: u8,
        groups: [u8; GROUPS_CAP],
        groups_count: u8,
        arch_data: [u8; ARCH_PAYLOAD_SIZE],
    ) -> (r: InsnDetail)
        ensures
            r.spec_arch() == arch,
            r.spec_regs_read() == regs_read@.take(
                visible_count(regs_read_count as int, REGS_READ_CAP as int),
            ),
            r.spec_regs_write() == regs_write@.take(
                visible_count(regs_write_count as int, REGS_WRITE_CAP as int),
            ),
            r.spec_groups() == groups@.take(visible_count(groups_count as int, GROUPS_CAP as int)),
            r.spec_payload() == arch_data@,
    {
        InsnDetail {
            arch,
            regs_read,
            regs_read_count,
            regs_write,
            regs_write_count,
            groups,
            groups_count,
            arch_data,
        }
    }

    /// The architecture of the engine that filled this block in.
    pub fn arch(&self) -> (r: CsArch)
        ensures
            r == self.spec_arch(),
    {
        self.arch
    }

    /// Retrieve list of registers read by this instruction
    pub fn regs_read(&self) -> (r: &[u8])
        ensures
            r@ == self.spec_regs_read(),
    {
        let n: usize = if self.regs_read_count as usize <= REGS_READ_CAP {
            self.regs_read_count as usize
        } else {
            REGS_READ_CAP
        };
        vstd::slice::slice_subrange(self.regs_read.as_slice(), 0, n)
    }

    /// Retrieve list of registers written by this instruction
    pub fn regs_write(&self) -> (r: &[u8])
        ensures
            r@ == self.spec_regs_write(),
    {
        let n: usize = if self.regs_write_count as usize <= REGS_WRITE_CAP {
            self.regs_write_count as usize
        } else {
            REGS_WRITE_CAP
        };
        vstd::slice::slice_subrange(self.regs_write.as_slice(), 0, n)
    }

    /// Retrieve list of groups this instruction belongs to
    pub fn groups(&self) -> (r: &[u8])
        ensures
            r@ == self.spec_groups(),
    {
        let n: usize = if self.groups_count as usize <= GROUPS_CAP {
            self.groups_count as usize
        } else {
            GROUPS_CAP
        };
        vstd::slice::slice_subrange(self.groups.as_slice(), 0, n)
    }

    /// Architecture-specific data for x86; `None` unless the block was
    /// filled in by an x86 engine.
    pub fn data_x86(&self) -> (r: Option<X86Detail>)
        ensures
            r is Some <==> self.spec_arch() == CsArch::ARCH_X86,
            r matches Some(d) ==> x86_detail_read(d, self.spec_payload()),
    {
        match self.arch {
            CsArch::ARCH_X86 => Some(X86Detail::parse(self.arch_data.as_slice())),
            _ => None,
        }
    }

    /// Architecture-specific data for ARM; `None` unless the block was
    /// filled in by an ARM engine.
    pub fn data_arm(&self) -> (r: Option<ARMDetail>)
        ensures
            r is Some <==> self.spec_arch() == CsArch::ARCH_ARM,
            r matches Some(d) ==> arm_detail_read(d, self.spec_payload()),
    {
        match self.arch {
            CsArch::ARCH_ARM => Some(ARMDetail::parse(self.arch_data.as_slice())),
            _ => None,
        }
    }

    /// Architecture-specific data for PowerPC; `None` unless the block was
    /// filled in by a PowerPC engine.
    pub fn data_ppc(&self) -> (r: Option<PPCDetail>)
        ensures
            r is Some <==> self.spec_arch() == CsArch::ARCH_PPC,
            r matches Some(d) ==> ppc_detail_read(d, self.spec_payload()),
    {
        match self.arch {
            CsArch::ARCH_PPC => Some(PPCDetail::parse(self.arch_data.as_slice())),
            _ => None,
        }
    }
}

/// A disassembled instruction, as the engine reports it.
#[derive(Debug)]
pub struct Insn {
    /// The engine's instruction id; 0 marks data skipped in skipdata mode
    pub id: u32,
    /// Address of this instruction
    pub address: u64,
    /// Number of bytes this instruction takes
    pub size: u16,
    /// The instruction's bytes (the first `size` of them are meaningful)
    pub bytes: [u8; INSN_BYTES_CAP],
    /// The mnemonic, NUL-terminated
    pub mnemonic: [u8; MNEMONIC_CAP],
    /// The operand text, NUL-terminated
    pub op_str: [u8; OP_STR_CAP],
    /// The detail block, where the engine filled one in
    pub detail: Option<InsnDetail>,
}

/// What `detail_of` gives for a record: nothing for skipped data (id 0),
/// else the detail block that the engine filled in, if any.
pub open spec fn detail_view(insn: Insn) -> Option<InsnDetail> {
    if insn.id == 0 {
        None
    } else {
        insn.detail
    }
}

impl Insn {
    /// Address of this instruction (relative to default base)
    pub fn address(&self) -> (r: u64)
        ensures
            r == self.address,
    {
        self.address
    }

    /// Size of this instruction
    pub fn size(&self) -> (r: u16)
        ensures
            r == self.size,
    {
        self.size
    }

    /// Instruction mnemonic (e.g., 'mov', 'push'); `None` where the engine's
    /// text is not valid UTF-8.
    pub fn mnemonic(&self) -> (r: Option<String>)
        ensures
            r is Some <==> text_of(self.mnemonic@) is Some,
            r matches Some(t) ==> text_of(self.mnemonic@) == Some(t@),
    {
        c_text(self.mnemonic.as_slice())
    }

    /// Instruction operation string (e.g., 'rax', 'esp, 11'); `None` where
    /// the engine's text is not valid UTF-8.
    pub fn op_str(&self) -> (r: Option<String>)
        ensures
            r is Some <==> text_of(self.op_str@) is Some,
            r matches Some(t) ==> text_of(self.op_str@) == Some(t@),
    {
        c_text(self.op_str.as_slice())
    }

    /// Architecture-independent instruction detail; never present on a
    /// record of skipped data.
    pub fn detail(&self) -> (r: Option<&InsnDetail>)
        ensures
            r is Some <==> detail_view(*self) is Some,
            r matches Some(d) ==> detail_view(*self) == Some(*d),
            self.id == 0 ==> r is None,
    {
        if self.id == 0 {
            None
        } else {
            match &self.detail {
                Some(d) => Some(d),
                None => None,
            }
        }
    }
}

} // verus!
