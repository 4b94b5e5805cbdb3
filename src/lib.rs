//! A safe access layer over the Capstone instruction decoder.
//!
//! The engine itself is a foreign library; this crate holds the logic around
//! it: engine configuration and the order of the calls that set an engine
//! up, the assembly of a batch of decoded records, the cursor of a
//! one-instruction-at-a-time walk, and the typed reading of the detail block
//! that the engine fills for each instruction.
pub mod arm;
mod batch;
mod config;
mod error;
mod handle;
mod insn;
pub mod layout;
pub mod mode;
pub mod ppc;
pub mod text;
mod walk;
pub mod x86;

pub use batch::{
    batch_limit, is_trace, lemma_batch_detail, lemma_batch_within_code, offset_after, record_fits,
    size_sum, span, wrap_add, InstructionIterator, Instructions, ADDRESS_SPACE,
};
pub use config::{
    CsArch, CsOptType, CsOptValue, CS_OPT_OFF, CS_OPT_ON, CS_OPT_SYNTAX_ATT,
    CS_OPT_SYNTAX_DEFAULT, CS_OPT_SYNTAX_INTEL, CS_OPT_SYNTAX_NOREGNAME,
};
pub use error::{CsError, DisasmError, STATUS_COUNT};
pub use handle::{
    lemma_setup_release, setup_next, EngineCall, Handle, HandleBuilder, HandleSetup, SetupStage,
    SetupStep, SetupStepView,
};
pub use insn::{
    detail_view, CsGroup, Insn, InsnDetail, GROUPS_CAP, INSN_BYTES_CAP,
    MNEMONIC_CAP, OP_STR_CAP, REGS_READ_CAP, REGS_WRITE_CAP,
};
pub use layout::ARCH_PAYLOAD_SIZE;
pub use mode::CsMode;
pub use walk::{
    lemma_walk_matches_batch, lemma_walk_visits_trace, walk_after, walk_from, walk_start,
    walk_step, WalkView, Walker,
};
