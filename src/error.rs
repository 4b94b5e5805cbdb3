use vstd::prelude::*;

verus! {

/// Status codes reported by the engine, in the engine's numbering.
#[allow(non_camel_case_types)]
#[derive(Clone, Copy, Debug, PartialEq, Eq, Structural)]
pub enum CsError {
    /// No error: everything was fine
    CS_ERR_OK,
    /// Out-Of-Memory error: cs_open(), cs_disasm(), cs_disasm_iter()
    CS_ERR_MEM,
    /// Unsupported architecture: cs_open()
    CS_ERR_ARCH,
    /// Invalid handle: cs_op_count(), cs_op_index()
    CS_ERR_HANDLE,
    /// Invalid csh argument: cs_close(), cs_errno(), cs_option()
    CS_ERR_CSH,
    /// Invalid/unsupported mode: cs_open()
    CS_ERR_MODE,
    /// Invalid/unsupported option: cs_option()
    CS_ERR_OPTION,
    /// Information is unavailable because detail option is OFF
    CS_ERR_DETAIL,
    /// Dynamic memory management uninitialized (see CS_OPT_MEM)
    CS_ERR_MEMSETUP,
    /// Unsupported version (bindings)
    CS_ERR_VERSION,
    /// Access irrelevant data in "diet" engine
    CS_ERR_DIET,
    /// Access irrelevant data for "data" instruction in SKIPDATA mode
    CS_ERR_SKIPDATA,
    /// X86 AT&T syntax is unsupported (opt-out at compile time)
    CS_ERR_X86_ATT,
    /// X86 Intel syntax is unsupported (opt-out at compile time)
    CS_ERR_X86_INTEL,
}

/// The number of status codes that the engine defines.
pub const STATUS_COUNT: u32 = 14;

impl CsError {
    /// The engine's numeric value of this status.
    pub open spec fn spec_code(self) -> u32 {
        match self {
            CsError::CS_ERR_OK => 0,
            CsError::CS_ERR_MEM => 1,
            CsError::CS_ERR_ARCH => 2,
            CsError::CS_ERR_HANDLE => 3,
            CsError::CS_ERR_CSH => 4,
            CsError::CS_ERR_MODE => 5,
            CsError::CS_ERR_OPTION => 6,
            CsError::CS_ERR_DETAIL => 7,
            CsError::CS_ERR_MEMSETUP => 8,
            CsError::CS_ERR_VERSION => 9,
            CsError::CS_ERR_DIET => 10,
            CsError::CS_ERR_SKIPDATA => 11,
            CsError::CS_ERR_X86_ATT => 12,
            CsError::CS_ERR_X86_INTEL => 13,
        }
    }

    /// The status that a raw code reported by the engine stands for: a code
    /// that this binding does not know comes from an engine of another
    /// version, and reads as `CS_ERR_VERSION`.
    pub open spec fn spec_from_status(code: u32) -> CsError {
        if code == 0 {
            CsError::CS_ERR_OK
        } else if code == 1 {
            CsError::CS_ERR_MEM
        } else if code == 2 {
            CsError::CS_ERR_ARCH
        } else if code == 3 {
            CsError::CS_ERR_HANDLE
        } else if code == 4 {
            CsError::CS_ERR_CSH
        } else if code == 5 {
            CsError::CS_ERR_MODE
        } else if code == 6 {
            CsError::CS_ERR_OPTION
        } else if code == 7 {
            CsError::CS_ERR_DETAIL
        } else if code == 8 {
            CsError::CS_ERR_MEMSETUP
        } else if code == 10 {
            CsError::CS_ERR_DIET
        } else if code == 11 {
            CsError::CS_ERR_SKIPDATA
        } else if code == 12 {
            CsError::CS_ERR_X86_ATT
        } else if code == 13 {
            CsError::CS_ERR_X86_INTEL
        } else {
            CsError::CS_ERR_VERSION
        }
    }

    /// The engine's numeric value of this status.
    pub fn code(&self) -> (r: u32)
        ensures
            r == self.spec_code(),
            r < STATUS_COUNT,
    {
        match self {
            CsError::CS_ERR_OK => 0,
            CsError::CS_ERR_MEM => 1,
            CsError::CS_ERR_ARCH => 2,
            CsError::CS_ERR_HANDLE => 3,
            CsError::CS_ERR_CSH => 4,
            CsError::CS_ERR_MODE => 5,
            CsError::CS_ERR_OPTION => 6,
            CsError::CS_ERR_DETAIL => 7,
            CsError::CS_ERR_MEMSETUP => 8,
            CsError::CS_ERR_VERSION => 9,
            CsError::CS_ERR_DIET => 10,
            CsError::CS_ERR_SKIPDATA => 11,
            CsError::CS_ERR_X86_ATT => 12,
            CsError::CS_ERR_X86_INTEL => 13,
        }
    }

    /// Reads a raw status code reported by the engine.
    pub fn from_status(code: u32) -> (r: CsError)
        ensures
            r == Self::spec_from_status(code),
            code < STATUS_COUNT ==> r.spec_code() == code,
            code >= STATUS_COUNT ==> r == CsError::CS_ERR_VERSION,
    {
        if code == 0 {
            CsError::CS_ERR_OK
        } else if code == 1 {
            CsError::CS_ERR_MEM
        } else if code == 2 {
            CsError::CS_ERR_ARCH
        } else if code == 3 {
            CsError::CS_ERR_HANDLE
        } else if code == 4 {
            CsError::CS_ERR_CSH
        } else if code == 5 {
            CsError::CS_ERR_MODE
        } else if code == 6 {
            CsError::CS_ERR_OPTION
        } else if code == 7 {
            CsError::CS_ERR_DETAIL
        } else if code == 8 {
            CsError::CS_ERR_MEMSETUP
        } else if code == 10 {
            CsError::CS_ERR_DIET
        } else if code == 11 {
            CsError::CS_ERR_SKIPDATA
        } else if code == 12 {
            CsError::CS_ERR_X86_ATT
        } else if code == 13 {
            CsError::CS_ERR_X86_INTEL
        } else {
            CsError::CS_ERR_VERSION
        }
    }

    /// Whether this status reports success.
    pub fn is_ok(&self) -> (r: bool)
        ensures
            r == (*self == CsError::CS_ERR_OK),
    {
        match self {
            CsError::CS_ERR_OK => true,
            _ => false,
        }
    }
}

/// Why a batch decode failed.
#[derive(Clone, Copy, Debug, PartialEq, Eq, Structural)]
pub enum DisasmError {
    /// The engine decoded nothing and reported no error: the code was empty
    NoInstructionsDecoded,
    /// The engine decoded nothing, for this reason
    Engine(CsError),
}

impl DisasmError {
    /// The failure of a batch that returned no record, after the engine
    /// reported status `code`.
    pub open spec fn spec_from_status(code: u32) -> DisasmError {
        if code == 0 {
            DisasmError::NoInstructionsDecoded
        } else {
            DisasmError::Engine(CsError::spec_from_status(code))
        }
    }

    /// The failure of a batch that returned no record, after the engine
    /// reported status `code`; never an engine error that reads as success.
    pub fn from_status(code: u32) -> (r: DisasmError)
        ensures
            r == Self::spec_from_status(code),
            r matches DisasmError::Engine(e) ==> e != CsError::CS_ERR_OK,
    {
        if code == 0 {
            DisasmError::NoInstructionsDecoded
        } else {
            DisasmError::Engine(CsError::from_status(code))
        }
    }
}

} // verus!
