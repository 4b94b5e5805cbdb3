use capstone::mode;
use capstone::{
    CsArch, CsError, CsMode, DisasmError, Handle, HandleBuilder, Insn, InsnDetail, Instructions, SetupStep,
    Walker, ARCH_PAYLOAD_SIZE,
};

static CODE: &'static [u8] = b"\x55\x48\x8b\x05\xb8\x13\x00\x00";

fn handle(arch: CsArch, mode_bits: u32, detail: bool, skipdata: bool) -> Handle {
    let mut b = HandleBuilder::new(arch, CsMode::from_bits(mode_bits));
    if detail {
        b = b.detail();
    }
    if skipdata {
        b = b.skipdata();
    }
    let (setup, _) = b.build();
    let setup = match setup.resume(0, 0x51) {
        SetupStep::Call(s, _) => s,
        _ => panic!("open failed"),
    };
    let setup = match setup.resume(0, 0) {
        SetupStep::Call(s, _) => s,
        _ => panic!("detail option failed"),
    };
    match setup.resume(0, 0) {
        SetupStep::Ready(h) => h,
        _ => panic!("skipdata option failed"),
    }
}

fn text<const N: usize>(s: &str) -> [u8; N] {
    let mut buf = [0u8; N];
    buf[..s.len()].copy_from_slice(s.as_bytes());
    buf
}

fn detail_block(arch: CsArch) -> InsnDetail {
    InsnDetail::new(arch, [0; 12], 0, [0; 20], 0, [0; 8], 0, [0; ARCH_PAYLOAD_SIZE])
}

fn insn(id: u32, address: u64, size: u16, mnemonic: &str, op_str: &str, detail: Option<InsnDetail>) -> Insn {
    Insn {
        id,
        address,
        size,
        bytes: [0; 16],
        mnemonic: text::<32>(mnemonic),
        op_str: text::<160>(op_str),
        detail,
    }
}

/// The records that an x86-64 engine returns for `CODE` at 0x1000.
fn x86_records(detail: bool) -> Vec<Insn> {
    let d = |on: bool| if on { Some(detail_block(CsArch::ARCH_X86)) } else { None };
    vec![
        insn(588, 0x1000, 1, "push", "rbp", d(detail)),
        insn(449, 0x1001, 7, "mov", "rax, qword ptr [rip + 0x13b8]", d(detail)),
    ]
}

#[test]
fn test_x86_simple() {
    let h = handle(CsArch::ARCH_X86, mode::W64, false, false);
    match Instructions::from_parts(&h, CODE.len(), 0x1000, 0, x86_records(false), 0) {
        Ok(insns) => {
            assert_eq!(insns.len(), 2);
            let mut it = insns.iter();
            let mut is: Vec<&Insn> = Vec::new();
            while let Some(i) = it.next() {
                is.push(i);
            }
            assert_eq!(is[0].mnemonic().unwrap(), "push");
            assert_eq!(is[1].mnemonic().unwrap(), "mov");

            assert_eq!(is[0].address, 0x1000);
            assert_eq!(is[1].address, 0x1001);
        }
        Err(_) => {
            assert!(false, "Couldn't disasm instructions")
        }
    }
}

#[test]
fn detail_off_gives_no_detail() {
    let h = handle(CsArch::ARCH_X86, mode::W64, false, false);
    let insns = Instructions::from_parts(&h, CODE.len(), 0x1000, 0, x86_records(false), 0).unwrap();
    for i in insns.as_slice() {
        assert!(i.detail().is_none());
    }
}

#[test]
fn detail_on_gives_detail() {
    let h = handle(CsArch::ARCH_X86, mode::W64, true, false);
    let insns = Instructions::from_parts(&h, CODE.len(), 0x1000, 0, x86_records(true), 0).unwrap();
    assert_eq!(insns.len(), 2);
    for i in insns.as_slice() {
        let d = i.detail().unwrap();
        assert_eq!(d.arch(), CsArch::ARCH_X86);
        assert!(d.data_x86().is_some());
        assert!(d.data_arm().is_none());
        assert!(d.data_ppc().is_none());
    }
}

#[test]
fn skipped_tail_has_no_detail() {
    // 55 48 8b: "push rbp", then two bytes that do not make an instruction,
    // which skipdata mode turns into records of id 0.
    let h = handle(CsArch::ARCH_X86, mode::W64, true, true);
    let recs = vec![
        insn(588, 0x1000, 1, "push", "rbp", Some(detail_block(CsArch::ARCH_X86))),
        insn(0, 0x1001, 1, ".byte", "0x48", Some(detail_block(CsArch::ARCH_X86))),
        insn(0, 0x1002, 1, ".byte", "0x8b", None),
    ];
    let insns = Instructions::from_parts(&h, 3, 0x1000, 0, recs, 0).unwrap();
    assert_eq!(insns.len(), 3);
    let s = insns.as_slice();
    assert!(s[0].detail().is_some());
    assert_eq!(s[1].id, 0);
    assert!(s[1].detail().is_none());
    assert!(s[2].detail().is_none());
    assert_eq!(s[2].op_str().unwrap(), "0x8b");
}

#[test]
fn batch_sizes_and_addresses() {
    let h = handle(CsArch::ARCH_X86, mode::W64, false, false);
    let insns = Instructions::from_parts(&h, CODE.len(), 0x1000, 0, x86_records(false), 0).unwrap();
    let s = insns.as_slice();
    let total: usize = s.iter().map(|i| i.size() as usize).sum();
    assert!(total <= CODE.len());
    for w in s.windows(2) {
        assert!(w[0].address() < w[1].address());
        assert_eq!(w[0].address() + w[0].size() as u64, w[1].address());
    }
}

#[test]
fn batch_with_no_record_fails() {
    let h = handle(CsArch::ARCH_X86, mode::W64, false, false);
    match Instructions::from_parts(&h, 0, 0x1000, 0, Vec::new(), 0) {
        Err(e) => assert_eq!(e, DisasmError::NoInstructionsDecoded),
        Ok(_) => panic!("empty input decoded"),
    }
    match Instructions::from_parts(&h, 8, 0x1000, 0, Vec::new(), 1) {
        Err(e) => assert_eq!(e, DisasmError::Engine(CsError::CS_ERR_MEM)),
        Ok(_) => panic!("nothing decoded"),
    }
    assert_eq!(DisasmError::from_status(99), DisasmError::Engine(CsError::CS_ERR_VERSION));
}

#[test]
fn batch_count_caps_records() {
    let h = handle(CsArch::ARCH_X86, mode::W64, false, false);
    let insns = Instructions::from_parts(&h, CODE.len(), 0x1000, 1, x86_records(false), 0).unwrap();
    assert_eq!(insns.len(), 1);
    assert_eq!(insns.as_slice()[0].mnemonic().unwrap(), "push");
}

#[test]
fn batch_keeps_every_engine_record() {
    let h = handle(CsArch::ARCH_X86, mode::W64, true, true);
    // a skipped-data record of size 0 stands for one skipped byte
    let recs = vec![
        insn(588, 0x1000, 1, "push", "rbp", Some(detail_block(CsArch::ARCH_X86))),
        insn(0, 0x1001, 0, ".byte", "0x48", None),
        insn(0, 0x1002, 1, ".byte", "0x8b", None),
    ];
    let insns = Instructions::from_parts(&h, 3, 0x1000, 0, recs, 0).unwrap();
    assert_eq!(insns.len(), 3);
    assert_eq!(insns.as_slice()[1].size(), 0);
    assert!(insns.as_slice()[1].detail().is_none());
    // one lone skipped-data record of size 0
    let recs = vec![insn(0, 0x1000, 0, ".byte", "0xff", None)];
    let insns = Instructions::from_parts(&h, 1, 0x1000, 0, recs, 0).unwrap();
    assert_eq!(insns.len(), 1);
    // addresses that wrap past the end of the address space
    let recs = vec![insn(1, u64::MAX, 1, "nop", "", None), insn(1, 0, 1, "nop", "", None)];
    let insns = Instructions::from_parts(&h, 2, u64::MAX, 0, recs, 0).unwrap();
    assert_eq!(insns.len(), 2);
    assert_eq!(insns.as_slice()[1].address(), 0);
}

#[test]
fn walk_skips_one_byte_for_empty_skipped_record() {
    let h = handle(CsArch::ARCH_X86, mode::W64, false, true);
    let mut w = Walker::new(&h, 3, 0x1000);
    let r = insn(0, 0x1000, 0, ".byte", "0x48", None);
    assert!(w.advance(Some(&r)));
    assert_eq!(w.next_request(), Some((1, 0x1001)));
}

#[test]
fn walk_ends_on_record_with_wrong_detail() {
    // detail tracking is on, but the record carries none
    let h = handle(CsArch::ARCH_X86, mode::W64, true, false);
    let mut w = Walker::new(&h, 8, 0x1000);
    let r = insn(588, 0x1000, 1, "push", "rbp", None);
    assert!(!w.advance(Some(&r)));
    assert_eq!(w.next_request(), None);
}

#[test]
fn walk_visits_what_batch_returns() {
    let h = handle(CsArch::ARCH_X86, mode::W64, false, false);
    let batch = Instructions::from_parts(&h, CODE.len(), 0x1000, 0, x86_records(false), 0).unwrap();
    let answers = x86_records(false);
    let mut w = Walker::new(&h, CODE.len(), 0x1000);
    let mut visited: Vec<(String, u64, u16)> = Vec::new();
    let mut k = 0;
    while let Some((off, addr)) = w.next_request() {
        assert_eq!(addr, 0x1000 + off as u64);
        let answer = answers.get(k);
        k += 1;
        if w.advance(answer) {
            let i = answer.unwrap();
            visited.push((i.mnemonic().unwrap(), i.address(), i.size()));
        } else {
            break;
        }
    }
    let expected: Vec<(String, u64, u16)> =
        batch.as_slice().iter().map(|i| (i.mnemonic().unwrap(), i.address(), i.size())).collect();
    assert_eq!(visited, expected);
    assert!(w.next_request().is_none());
}

#[test]
fn walk_ends_when_engine_gives_up() {
    let h = handle(CsArch::ARCH_X86, mode::W64, false, false);
    let mut w = Walker::new(&h, 8, 0x1000);
    assert_eq!(w.next_request(), Some((0, 0x1000)));
    assert!(!w.advance(None));
    assert_eq!(w.next_request(), None);
    // once over, a walk takes nothing more
    let r = insn(588, 0x1000, 1, "push", "rbp", None);
    assert!(!w.advance(Some(&r)));
}

#[test]
fn walk_ends_on_record_that_does_not_fit() {
    let h = handle(CsArch::ARCH_X86, mode::W64, false, false);
    let mut w = Walker::new(&h, 8, 0x1000);
    let r = insn(588, 0x1000, 1, "push", "rbp", None);
    assert!(w.advance(Some(&r)));
    assert_eq!(w.next_request(), Some((1, 0x1001)));
    let wrong = insn(449, 0x1005, 7, "mov", "", None);
    assert!(!w.advance(Some(&wrong)));
    assert_eq!(w.next_request(), None);
}

#[test]
fn walk_on_empty_code_asks_nothing() {
    let h = handle(CsArch::ARCH_X86, mode::W64, false, false);
    let w = Walker::new(&h, 0, 0x1000);
    assert_eq!(w.next_request(), None);
}

#[test]
fn walk_at_end_of_address_space() {
    let h = handle(CsArch::ARCH_X86, mode::W64, false, false);
    let mut w = Walker::new(&h, 4, u64::MAX - 1);
    assert_eq!(w.next_request(), Some((0, u64::MAX - 1)));
    let r = insn(1, u64::MAX - 1, 2, "nop", "", None);
    assert!(w.advance(Some(&r)));
    assert_eq!(w.next_request(), Some((2, 0)));
}

#[test]
fn iterator_hands_out_each_record_once() {
    let h = handle(CsArch::ARCH_X86, mode::W64, false, false);
    let insns = Instructions::from_parts(&h, 8, 0x1000, 0, x86_records(false), 0).unwrap();
    let mut it = insns.iter();
    assert_eq!(it.next().unwrap().address(), 0x1000);
    assert_eq!(it.next().unwrap().address(), 0x1001);
    assert!(it.next().is_none());
    assert!(it.next().is_none());
}
