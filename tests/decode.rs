use capstone::arm::{ARMCC, ARMCPSMode, ARMOp, ARMOpData, ARMOpMem, ARMOpType, ARMReg, ARMSetendType, ARMShifter, ARMSysreg};
use capstone::ppc::{PPCOp, PPCOpData, PPCOpMem, PPCOpType};
use capstone::text::c_text;
use capstone::x86::{X86Op, X86OpData, X86OpMem, X86OpType};
use capstone::{CsArch, CsGroup, InsnDetail, ARCH_PAYLOAD_SIZE};

fn put_u32(p: &mut [u8], off: usize, v: u32) {
    p[off..off + 4].copy_from_slice(&v.to_le_bytes());
}

fn put_u64(p: &mut [u8], off: usize, v: u64) {
    p[off..off + 8].copy_from_slice(&v.to_le_bytes());
}

fn block(arch: CsArch, payload: [u8; ARCH_PAYLOAD_SIZE]) -> InsnDetail {
    InsnDetail::new(arch, [0; 12], 0, [0; 20], 0, [0; 8], 0, payload)
}

#[test]
fn x86_operands_follow_the_count() {
    let mut p = [0u8; ARCH_PAYLOAD_SIZE];
    p[0] = 0xf3;
    p[4] = 0x8b;
    p[8] = 0x48;
    put_u32(&mut p, 12, 0x13b8);
    p[44] = 2;
    // operand 0: register 35
    put_u32(&mut p, 48, 1);
    put_u64(&mut p, 56, 35);
    p[48 + 32] = 8;
    // operand 1: immediate -5
    put_u32(&mut p, 96, 2);
    put_u64(&mut p, 104, (-5i64) as u64);
    // a third one that the count hides
    put_u32(&mut p, 144, 2);
    let d = block(CsArch::ARCH_X86, p).data_x86().unwrap();
    assert_eq!(d.prefix(), [0xf3, 0, 0, 0]);
    assert_eq!(d.opcode(), [0x8b, 0, 0, 0]);
    assert_eq!(d.rex(), 0x48);
    assert_eq!(d.disp(), 0x13b8);
    assert_eq!(d.op_count(), 2);
    let ops = d.operands();
    assert_eq!(ops.len(), 2);
    assert_eq!(ops[0].kind(), Some(X86OpType::X86_OP_REG));
    assert_eq!(ops[0].data(), X86OpData::Reg(35));
    assert_eq!(ops[0].size, 8);
    assert_eq!(ops[1].kind(), Some(X86OpType::X86_OP_IMM));
    assert_eq!(ops[1].data(), X86OpData::Imm(-5));
}

#[test]
fn x86_count_past_capacity_is_clamped() {
    let mut p = [0u8; ARCH_PAYLOAD_SIZE];
    p[44] = 200;
    let d = block(CsArch::ARCH_X86, p).data_x86().unwrap();
    assert_eq!(d.op_count(), 200);
    assert_eq!(d.operands().len(), 8);
}

#[test]
fn x86_memory_and_unknown_operands() {
    let mem = X86Op {
        ty: 3,
        data: [(2u64 << 32) | 1, (4u64 << 32) | 3, (-16i64) as u64],
        size: 8,
        avx_bcast: 0,
        avx_zero_opmask: false,
    };
    assert_eq!(mem.data(), X86OpData::Mem(X86OpMem { segment: 1, base: 2, index: 3, scale: 4, disp: -16 }));
    let fp = X86Op { ty: 4, ..mem };
    assert_eq!(fp.kind(), Some(X86OpType::X86_OP_FP));
    assert_eq!(fp.data(), X86OpData::Other);
    let unknown = X86Op { ty: 0xdead, ..mem };
    assert_eq!(unknown.kind(), None);
    assert_eq!(unknown.data(), X86OpData::Other);
}

#[test]
fn arm_operands_by_tag() {
    let op = |ty: u32, w0: u64, w1: u64| ARMOp {
        vector_index: -1,
        shift_type: 2,
        shift_value: 3,
        ty,
        data: [w0, w1],
        subtracted: false,
    };
    assert_eq!(op(2, 0x1234, 0).data(), ARMOpData::Imm(0x1234));
    assert_eq!(op(64, 7, 0).data(), ARMOpData::Imm(7));
    assert_eq!(op(65, 9, 0).data(), ARMOpData::Imm(9));
    assert_eq!(op(1, 12, 0).data(), ARMOpData::Reg(ARMReg::ARM_REG_SP));
    assert_eq!(op(1, 66, 0).data(), ARMOpData::Reg(ARMReg::ARM_REG_R0));
    assert_eq!(op(1, 111, 0).data(), ARMOpData::Other);
    assert_eq!(op(67, 256, 0).data(), ARMOpData::Sysreg(ARMSysreg::ARM_SYSREG_APSR));
    assert_eq!(op(67, 3, 0).data(), ARMOpData::Other);
    assert_eq!(op(66, 1, 0).data(), ARMOpData::Setend(ARMSetendType::ARM_SETEND_BE));
    assert_eq!(
        op(3, (5u64 << 32) | 4, ((-8i32 as u32 as u64) << 32) | 2).data(),
        ARMOpData::Mem(ARMOpMem { base: 4, index: 5, scale: 2, disp: -8 })
    );
    assert_eq!(op(4, 0, 0).data(), ARMOpData::Other);
    assert_eq!(op(1000, 0, 0).data(), ARMOpData::Other);
    assert_eq!(op(1000, 0, 0).kind(), None);
    assert_eq!(op(67, 0, 0).kind(), Some(ARMOpType::ARM_OP_SYSREG));
    assert_eq!(op(2, 0, 0).shifter(), Some(ARMShifter::ARM_SFT_LSL));
    assert_eq!(ARMOp { shift_type: 11, ..op(2, 0, 0) }.shifter(), None);
}

#[test]
fn arm_detail_layout() {
    let mut p = [0u8; ARCH_PAYLOAD_SIZE];
    p[0] = 1;
    put_u32(&mut p, 12, 2);
    put_u32(&mut p, 16, 6);
    put_u32(&mut p, 20, 14);
    p[24] = 1;
    p[32] = 1;
    put_u32(&mut p, 40 + 12, 2);
    put_u64(&mut p, 40 + 16, 42);
    let d = block(CsArch::ARCH_ARM, p).data_arm().unwrap();
    assert!(d.usermode());
    assert_eq!(d.cps_mode(), Some(ARMCPSMode::ARM_CPSMODE_IE));
    assert_eq!(d.cps_flag(), 6);
    assert_eq!(d.cc(), Some(ARMCC::ARM_CC_LE));
    assert!(d.update_flags());
    assert!(!d.writeback());
    assert_eq!(d.operands().len(), 1);
    assert_eq!(d.operands()[0].data(), ARMOpData::Imm(42));
    let mut q = [0u8; ARCH_PAYLOAD_SIZE];
    put_u32(&mut q, 20, 16);
    put_u32(&mut q, 12, 1);
    q[32] = 99;
    let d = block(CsArch::ARCH_ARM, q).data_arm().unwrap();
    assert_eq!(d.cc(), None);
    assert_eq!(d.cps_mode(), None);
    assert_eq!(d.operands().len(), 36);
    assert!(block(CsArch::ARCH_ARM, q).data_x86().is_none());
}

#[test]
fn ppc_operands_by_tag() {
    let mut p = [0u8; ARCH_PAYLOAD_SIZE];
    put_u32(&mut p, 0, 12);
    put_u32(&mut p, 4, 1);
    p[8] = 1;
    p[9] = 3;
    put_u32(&mut p, 12, 1);
    put_u32(&mut p, 16, 3);
    put_u32(&mut p, 28, 2);
    put_u32(&mut p, 32, 0x10);
    put_u32(&mut p, 44, 3);
    put_u32(&mut p, 48, 1);
    put_u32(&mut p, 52, (-4i32) as u32);
    let d = block(CsArch::ARCH_PPC, p).data_ppc().unwrap();
    assert_eq!(d.ppc_bc(), 12);
    assert_eq!(d.ppc_bh(), 1);
    assert!(d.update_cr0());
    let ops = d.operands();
    assert_eq!(ops.len(), 3);
    assert_eq!(ops[0].data(), PPCOpData::Reg(3));
    assert_eq!(ops[1].data(), PPCOpData::Imm(0x10));
    assert_eq!(ops[2].data(), PPCOpData::Mem(PPCOpMem { base: 1, disp: -4 }));
    assert_eq!(ops[2].kind(), Some(PPCOpType::PPC_OP_MEM));
    let crx = PPCOp { ty: 64, data: [1, 2, 3] };
    assert_eq!(crx.kind(), None);
    assert_eq!(crx.data(), PPCOpData::Other);
}

#[test]
fn detail_lists_follow_their_counts() {
    let mut rr = [0u8; 12];
    rr[0] = 30;
    rr[1] = 44;
    rr[2] = 9;
    let mut groups = [0u8; 8];
    groups[0] = 2;
    groups[1] = 145;
    let d = InsnDetail::new(CsArch::ARCH_X86, rr, 2, [7; 20], 25, groups, 2, [0; ARCH_PAYLOAD_SIZE]);
    assert_eq!(d.regs_read(), &[30, 44]);
    assert_eq!(d.regs_write().len(), 20);
    assert_eq!(d.groups(), &[2, 145]);
    assert_eq!(CsGroup::from_id(d.groups()[0]), Some(CsGroup::CS_GRP_CALL));
    assert_eq!(CsGroup::from_id(d.groups()[1]), None);
    assert_eq!(CsGroup::CS_GRP_IRET.id(), 5);
}

#[test]
fn c_text_stops_at_nul() {
    assert_eq!(c_text(b"push\0rbp"), Some("push".to_string()));
    assert_eq!(c_text(b"mov"), Some("mov".to_string()));
    assert_eq!(c_text(b"\0abc"), Some(String::new()));
    assert_eq!(c_text(b""), Some(String::new()));
    assert_eq!(c_text(b"\xff\xfe\0"), None);
    assert_eq!(c_text(b"ok\0\xff"), Some("ok".to_string()));
    assert_eq!(c_text("é\0".as_bytes()), Some("é".to_string()));
}
