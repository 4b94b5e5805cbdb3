use capstone::mode;
use capstone::{
    CsArch, CsError, CsMode, CsOptType, CsOptValue, EngineCall, HandleBuilder, SetupStep, CS_OPT_ON,
};

#[test]
fn setup_asks_for_open_then_both_options() {
    let b = HandleBuilder::new(CsArch::ARCH_X86, CsMode::from_bits(mode::W64)).detail();
    let (s, call) = b.build();
    assert_eq!(call, EngineCall::Open { arch: 3, mode: 8 });
    let s = match s.resume(0, 77) {
        SetupStep::Call(s, c) => {
            assert_eq!(c, EngineCall::SetOption { csh: 77, option: 2, value: 3 });
            s
        }
        _ => panic!("open succeeded"),
    };
    let s = match s.resume(0, 0) {
        SetupStep::Call(s, c) => {
            assert_eq!(c, EngineCall::SetOption { csh: 77, option: 5, value: 0 });
            s
        }
        _ => panic!("detail succeeded"),
    };
    match s.resume(0, 0) {
        SetupStep::Ready(h) => {
            assert_eq!(h.csh(), 77);
            assert_eq!(h.arch(), CsArch::ARCH_X86);
            assert_eq!(h.mode().bits(), 8);
            assert!(h.detail_enabled());
            assert!(!h.skipdata_enabled());
        }
        _ => panic!("skipdata succeeded"),
    }
}

#[test]
fn failed_open_leaves_nothing_to_close() {
    let (s, _) = HandleBuilder::new(CsArch::ARCH_XCORE, CsMode::from_bits(mode::W64)).build();
    match s.resume(2, 0) {
        SetupStep::Failed { error, close } => {
            assert_eq!(error, CsError::CS_ERR_ARCH);
            assert_eq!(close, None);
        }
        _ => panic!("open failed"),
    }
}

#[test]
fn failed_option_closes_the_engine() {
    let (s, _) = HandleBuilder::new(CsArch::ARCH_ARM, CsMode::from_bits(mode::THUMB)).skipdata().build();
    let s = match s.resume(0, 9) {
        SetupStep::Call(s, _) => s,
        _ => panic!("open succeeded"),
    };
    let s = match s.resume(0, 0) {
        SetupStep::Call(s, c) => {
            assert_eq!(c, EngineCall::SetOption { csh: 9, option: 5, value: CS_OPT_ON });
            s
        }
        _ => panic!("detail succeeded"),
    };
    match s.resume(6, 0) {
        SetupStep::Failed { error, close } => {
            assert_eq!(error, CsError::CS_ERR_OPTION);
            assert_eq!(close, Some(9));
        }
        _ => panic!("skipdata failed"),
    }
}

#[test]
fn status_codes() {
    for c in 0..14u32 {
        assert_eq!(CsError::from_status(c).code(), c);
    }
    assert_eq!(CsError::from_status(14), CsError::CS_ERR_VERSION);
    assert_eq!(CsError::from_status(u32::MAX), CsError::CS_ERR_VERSION);
    assert!(CsError::CS_ERR_OK.is_ok());
    assert!(!CsError::CS_ERR_MEM.is_ok());
}

#[test]
fn engine_numbering() {
    assert_eq!(CsArch::ARCH_ARM.code(), 0);
    assert_eq!(CsArch::ARCH_PPC.code(), 4);
    assert_eq!(CsArch::ARCH_ALL.code(), 0xFFFF);
    assert_eq!(CsOptType::CS_OPT_DETAIL.code(), 2);
    assert_eq!(CsOptType::CS_OPT_SKIPDATA.code(), 5);
    assert_eq!(CsOptValue::switch(true), CsOptValue(3));
    assert_eq!(CsOptValue::switch(false), CsOptValue(0));
}

#[test]
fn mode_flags() {
    let m = CsMode::from_bits(mode::THUMB).union(CsMode::from_bits(mode::MCLASS));
    assert_eq!(m.bits(), 0x30);
    assert!(m.contains(CsMode::from_bits(mode::THUMB)));
    assert!(!m.contains(CsMode::from_bits(mode::BIG_ENDIAN)));
    assert_eq!(mode::BIG_ENDIAN, 0x8000_0000);
    assert_eq!(mode::MIPS64, mode::W64);
}

#[test]
fn option_value_names() {
    assert_eq!(CsOptValue(0).name(), "CS_OPT_OFF | CS_OPT_SYNTAX_DEFAULT");
    assert_eq!(CsOptValue(3).name(), "CS_OPT_ON | CS_OPT_SYNTAX_NOREGNAME");
    assert_eq!(CsOptValue(1).name(), "CS_OPT_SYNTAX_INTEL");
    assert_eq!(CsOptValue(2).name(), "CS_OPT_SYNTAX_ATT");
    assert_eq!(CsOptValue(7).name(), "CS_OPT_UNKNOWN");
}
