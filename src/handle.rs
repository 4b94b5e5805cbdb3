use crate::config::{CsArch, CsOptType, CsOptValue, CS_OPT_OFF, CS_OPT_ON};
use crate::error::CsError;
use crate::mode::CsMode;
use vstd::prelude::*;

verus! {

/// Handle to a configured engine instance: the engine's opaque number,
/// with the configuration it was set up with. It is made only by a setup
/// that succeeded, and it cannot be copied.
pub struct Handle {
    csh: usize,
    arch: CsArch,
    mode: CsMode,
    detail: bool,
    skipdata: bool,
}

impl Handle {
    pub closed spec fn spec_csh(self) -> usize {
        self.csh
    }

    pub closed spec fn spec_arch(self) -> CsArch {
        self.arch
    }

    pub closed spec fn spec_mode(self) -> CsMode {
        self.mode
    }

    /// Whether the engine fills in a detail block for each instruction.
    pub closed spec fn spec_detail(self) -> bool {
        self.detail
    }

    /// Whether the engine turns undecodable bytes into skipped-data records.
    pub closed spec fn spec_skipdata(self) -> bool {
        self.skipdata
    }

    /// The engine's number for this instance, as every call on it takes.
    pub fn csh(&self) -> (r: usize)
        ensures
            r == self.spec_csh(),
    {
        self.csh
    }

    /// The architecture the engine decodes.
    pub fn arch(&self) -> (r: CsArch)
        ensures
            r == self.spec_arch(),
    {
        self.arch
    }

    /// The mode the engine decodes in.
    pub fn mode(&self) -> (r: CsMode)
        ensures
            r == self.spec_mode(),
    {
        self.mode
    }

    /// Whether detail tracking is on.
    pub fn detail_enabled(&self) -> (r: bool)
        ensures
            r == self.spec_detail(),
    {
        self.detail
    }

    /// Whether skipdata mode is on.
    pub fn skipdata_enabled(&self) -> (r: bool)
        ensures
            r == self.spec_skipdata(),
    {
        self.skipdata
    }
}

/// Utility struct to construct a configured engine Handle
#[derive(Clone, Copy, Debug)]
pub struct HandleBuilder {
    arch: CsArch,
    mode: CsMode,
    detail: bool,
    skipdata: bool,
}

impl HandleBuilder {
    pub closed spec fn spec_arch(self) -> CsArch {
        self.arch
    }

    pub closed spec fn spec_mode(self) -> CsMode {
        self.mode
    }

    pub closed spec fn spec_detail(self) -> bool {
        self.detail
    }

    pub closed spec fn spec_skipdata(self) -> bool {
        self.skipdata
    }

    /// Create a new HandleBuilder with all options defaulting to off
    pub fn new(arch: CsArch, mode: CsMode) -> (r: HandleBuilder)
        ensures
            r.spec_arch() == arch,
            r.spec_mode() == mode,
            !r.spec_detail(),
            !r.spec_skipdata(),
    {
        HandleBuilder { arch, mode, detail: false, skipdata: false }
    }

    /// Enable skipdata mode
    pub fn skipdata(self) -> (r: HandleBuilder)
        ensures
            r.spec_arch() == self.spec_arch(),
            r.spec_mode() == self.spec_mode(),
            r.spec_detail() == self.spec_detail(),
            r.spec_skipdata(),
    {
        HandleBuilder { skipdata: true, ..self }
    }

    /// Enable detail tracking
    pub fn detail(self) -> (r: HandleBuilder)
        ensures
            r.spec_arch() == self.spec_arch(),
            r.spec_mode() == self.spec_mode(),
            r.spec_detail(),
            r.spec_skipdata() == self.spec_skipdata(),
    {
        HandleBuilder { detail: true, ..self }
    }

    /// Starts setting up an engine with this configuration: the first call
    /// opens it with the builder's architecture and mode.
    pub fn build(self) -> (r: (HandleSetup, EngineCall))
        ensures
            r.0.spec_builder() == self,
            r.0.spec_stage() == SetupStage::Opening,
            r.1 == (EngineCall::Open { arch: self.spec_arch().spec_code(), mode: self.spec_mode().spec_bits() }),
    {
        let call = EngineCall::Open { arch: self.arch.code(), mode: self.mode.bits() };
        (HandleSetup { builder: self, stage: SetupStage::Opening, csh: 0 }, call)
    }
}

/// A call that setting up an engine asks of it.
#[derive(Clone, Copy, Debug, PartialEq, Eq, Structural)]
pub enum EngineCall {
    /// Open an engine for architecture `arch` in mode `mode` (engine numbering)
    Open { arch: u32, mode: u32 },
    /// Set option `option` of engine `csh` to `value` (engine numbering)
    SetOption { csh: usize, option: u32, value: u32 },
}

/// The call whose status a setup waits for.
#[derive(Clone, Copy, Debug, PartialEq, Eq, Structural)]
pub enum SetupStage {
    Opening,
    SettingDetail,
    SettingSkipdata,
}

/// A setup in progress: it has asked for one call and waits for its status.
pub struct HandleSetup {
    builder: HandleBuilder,
    stage: SetupStage,
    csh: usize,
}

/// What a setup does after the status of its last call.
pub enum SetupStep {
    /// Make this call and hand its status to the setup again
    Call(HandleSetup, EngineCall),
    /// The engine is set up
    Ready(Handle),
    /// Setup failed with `error`; where the engine had been opened, `close`
    /// holds its number, and it must be closed
    Failed { error: CsError, close: Option<usize> },
}

/// What a setup at `stage`, for `builder`, with the engine number `csh`
/// once opened, does when its call reports `status` and, for an open,
/// the number `opened`.
pub open spec fn setup_next(
    builder: HandleBuilder,
    stage: SetupStage,
    csh: usize,
    status: u32,
    opened: usize,
) -> SetupStepView {
    if status != 0 {
        SetupStepView::Failed {
            error: CsError::spec_from_status(status),
            close: if stage == SetupStage::Opening {
                None
            } else {
                Some(csh)
            },
        }
    } else {
        match stage {
            SetupStage::Opening => SetupStepView::Call(
                SetupStage::SettingDetail,
                opened,
                EngineCall::SetOption {
                    csh: opened,
                    option: CsOptType::CS_OPT_DETAIL.spec_code(),
                    value: if builder.spec_detail() { CS_OPT_ON } else { CS_OPT_OFF },
                },
            ),
            SetupStage::SettingDetail => SetupStepView::Call(
                SetupStage::SettingSkipdata,
                csh,
                EngineCall::SetOption {
                    csh,
                    option: CsOptType::CS_OPT_SKIPDATA.spec_code(),
                    value: if builder.spec_skipdata() { CS_OPT_ON } else { CS_OPT_OFF },
                },
            ),
            SetupStage::SettingSkipdata => SetupStepView::Ready(csh),
        }
    }
}

/// A setup never leaks nor closes twice: a failed open leaves nothing to
/// close, a failure after the open asks to close the engine it opened, and
/// a step that succeeds asks to close nothing.
pub proof fn lemma_setup_release(b: HandleBuilder, stage: SetupStage, csh: usize, status: u32, opened: usize)
    ensures
        status != 0 ==> (setup_next(b, stage, csh, status, opened) matches SetupStepView::Failed {
            error,
            close,
        } && error == CsError::spec_from_status(status) && (close is Some <==> stage
            != SetupStage::Opening) && (close matches Some(c) ==> c == csh)),
        status == 0 ==> !(setup_next(b, stage, csh, status, opened) is Failed),
        status == 0 && stage == SetupStage::SettingSkipdata ==> setup_next(b, stage, csh, status, opened)
            == SetupStepView::Ready(csh),
{
}

/// A `SetupStep` as contracts see it: the stage and engine number of the
/// setup that goes on, or the number of the handle that is ready.
pub enum SetupStepView {
    Call(SetupStage, usize, EngineCall),
    Ready(usize),
    Failed { error: CsError, close: Option<usize> },
}

impl SetupStep {
    /// The step as contracts see it.
    pub open spec fn view_step(self) -> SetupStepView {
        match self {
            SetupStep::Call(s, c) => SetupStepView::Call(s.spec_stage(), s.spec_csh(), c),
            SetupStep::Ready(h) => SetupStepView::Ready(h.spec_csh()),
            SetupStep::Failed { error, close } => SetupStepView::Failed { error, close },
        }
    }
}

impl HandleSetup {
    pub closed spec fn spec_builder(self) -> HandleBuilder {
        self.builder
    }

    pub closed spec fn spec_stage(self) -> SetupStage {
        self.stage
    }

    pub closed spec fn spec_csh(self) -> usize {
        self.csh
    }

    /// Goes on after the status of the call that this setup asked for.
    /// `opened` is the number that an open call wrote; it is not read after
    /// the other calls.
    pub fn resume(self, status: u32, opened: usize) -> (r: SetupStep)
        ensures
            r.view_step() == setup_next(
                self.spec_builder(),
                self.spec_stage(),
                self.spec_csh(),
                status,
                opened,
            ),
            r matches SetupStep::Call(s, _) ==> s.spec_builder() == self.spec_builder(),
            r matches SetupStep::Ready(h) ==> {
                &&& h.spec_arch() == self.spec_builder().spec_arch()
                &&& h.spec_mode() == self.spec_builder().spec_mode()
                &&& h.spec_detail() == self.spec_builder().spec_detail()
                &&& h.spec_skipdata() == self.spec_builder().spec_skipdata()
            },
    {
        if status != 0 {
            let close = match self.stage {
                SetupStage::Opening => None,
                _ => Some(self.csh),
            };
            return SetupStep::Failed { error: CsError::from_status(status), close };
        }
        match self.stage {
            SetupStage::Opening => {
                let call = EngineCall::SetOption {
                    csh: opened,
                    option: CsOptType::CS_OPT_DETAIL.code(),
                    value: CsOptValue::switch(self.builder.detail).0,
                };
                SetupStep::Call(
                    HandleSetup { builder: self.builder, stage: SetupStage::SettingDetail, csh: opened },
                    call,
                )
            },
            SetupStage::SettingDetail => {
                let call = EngineCall::SetOption {
                    csh: self.csh,
                    option: CsOptType::CS_OPT_SKIPDATA.code(),
                    value: CsOptValue::switch(self.builder.skipdata).0,
                };
                SetupStep::Call(
                    HandleSetup { builder: self.builder, stage: SetupStage::SettingSkipdata, csh: self.csh },
                    call,
                )
            },
            SetupStage::SettingSkipdata => SetupStep::Ready(
                Handle {
                    csh: self.csh,
                    arch: self.builder.arch,
                    mode: self.builder.mode,
                    detail: self.builder.detail,
                    skipdata: self.builder.skipdata,
                },
            ),
        }
    }
}

} // verus!
