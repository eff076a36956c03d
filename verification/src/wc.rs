//! Work completions: what the provider reports of a finished work request.
use vstd::prelude::*;
use vstd::std_specs::convert::TryFromSpecImpl;

verus! {

/// The bit of the flags of a completion that says that it carries immediate
/// data.
pub const WC_WITH_IMM: u32 = 2;

/// The status of a completion that succeeded.
pub const WC_SUCCESS: u32 = 0;

/// One completion, as the provider wrote it. The status and the opcode are
/// kept as wire values: they are read with [`WorkCompletionError::result`] and
/// [`WorkCompletion::opcode`].
#[derive(Debug, Clone, Copy, PartialEq, Eq)]
pub struct WorkCompletion {
    pub wr_id: u64,
    pub status: u32,
    pub opcode: u32,
    pub byte_len: u32,
    pub wc_flags: u32,
    /// Meaningful only where the flags have [`WC_WITH_IMM`].
    pub imm_data: u32,
}

impl WorkCompletion {
    /// The status, as a wire value.
    pub fn status(&self) -> (r: u32)
        ensures
            r == self.status,
    {
        self.status
    }

    /// The identifier that the work request was posted with.
    pub fn wr_id(&self) -> (r: u64)
        ensures
            r == self.wr_id,
    {
        self.wr_id
    }

    /// The number of bytes transferred.
    pub fn byte_len(&self) -> (r: u32)
        ensures
            r == self.byte_len,
    {
        self.byte_len
    }

    /// Whether the opcode is a wire value that stands for an operation.
    pub fn has_opcode(&self) -> (b: bool)
        ensures
            b == Opcode::decode(self.opcode) is Some,
    {
        Opcode::try_from(self.opcode).is_ok()
    }

    /// The operation that completed. The opcode must be a wire value that
    /// stands for one, see [`Self::has_opcode`].
    pub fn opcode(&self) -> (r: Opcode)
        requires
            Opcode::decode(self.opcode) is Some,
        ensures
            Some(r) == Opcode::decode(self.opcode),
            r.raw() == self.opcode,
    {
        match Opcode::try_from(self.opcode) {
            Ok(op) => op,
            Err(_) => Opcode::Send,
        }
    }

    /// The immediate data: present exactly where the flags say that the
    /// completion carries any.
    pub fn imm_data(&self) -> (r: Option<u32>)
        ensures
            r == if self.wc_flags & WC_WITH_IMM != 0 {
                Some(self.imm_data)
            } else {
                None
            },
    {
        if self.wc_flags & WC_WITH_IMM != 0 {
            Some(self.imm_data)
        } else {
            None
        }
    }
}

/// The operation that a completion reports.
#[derive(Debug, Clone, Copy, PartialEq, Eq, Structural)]
pub enum Opcode {
    Send,
    RdmaWrite,
    RdmaRead,
    CompSwap,
    FetchAdd,
    BindMw,
    LocalInv,
    Tso,
    Recv,
    RecvRdmaWithImm,
    TmAdd,
    TmDel,
    TmSync,
    TmRecv,
    TmNoTag,
    Driver1,
    Driver2,
    Driver3,
}

impl Opcode {
    /// The wire value of the completed operation.
    pub open spec fn raw(self) -> u32 {
        match self {
            Opcode::Send => 0,
            Opcode::RdmaWrite => 1,
            Opcode::RdmaRead => 2,
            Opcode::CompSwap => 3,
            Opcode::FetchAdd => 4,
            Opcode::BindMw => 5,
            Opcode::LocalInv => 6,
            Opcode::Tso => 7,
            Opcode::Recv => 128,
            Opcode::RecvRdmaWithImm => 129,
            Opcode::TmAdd => 130,
            Opcode::TmDel => 131,
            Opcode::TmSync => 132,
            Opcode::TmRecv => 133,
            Opcode::TmNoTag => 134,
            Opcode::Driver1 => 135,
            Opcode::Driver2 => 136,
            Opcode::Driver3 => 137,
        }
    }

    /// The completed operation that the wire value `value` stands for, if it stands for one.
    pub open spec fn decode(value: u32) -> Option<Opcode> {
        if value == 0 {
            Some(Opcode::Send)
        } else if value == 1 {
            Some(Opcode::RdmaWrite)
        } else if value == 2 {
            Some(Opcode::RdmaRead)
        } else if value == 3 {
            Some(Opcode::CompSwap)
        } else if value == 4 {
            Some(Opcode::FetchAdd)
        } else if value == 5 {
            Some(Opcode::BindMw)
        } else if value == 6 {
            Some(Opcode::LocalInv)
        } else if value == 7 {
            Some(Opcode::Tso)
        } else if value == 128 {
            Some(Opcode::Recv)
        } else if value == 129 {
            Some(Opcode::RecvRdmaWithImm)
        } else if value == 130 {
            Some(Opcode::TmAdd)
        } else if value == 131 {
            Some(Opcode::TmDel)
        } else if value == 132 {
            Some(Opcode::TmSync)
        } else if value == 133 {
            Some(Opcode::TmRecv)
        } else if value == 134 {
            Some(Opcode::TmNoTag)
        } else if value == 135 {
            Some(Opcode::Driver1)
        } else if value == 136 {
            Some(Opcode::Driver2)
        } else if value == 137 {
            Some(Opcode::Driver3)
        } else {
            None
        }
    }

    /// The wire value of the completed operation.
    pub fn to_c_uint(self) -> (r: u32)
        ensures
            r == self.raw(),
            Opcode::decode(r) == Some(self),
    {
        match self {
            Opcode::Send => 0,
            Opcode::RdmaWrite => 1,
            Opcode::RdmaRead => 2,
            Opcode::CompSwap => 3,
            Opcode::FetchAdd => 4,
            Opcode::BindMw => 5,
            Opcode::LocalInv => 6,
            Opcode::Tso => 7,
            Opcode::Recv => 128,
            Opcode::RecvRdmaWithImm => 129,
            Opcode::TmAdd => 130,
            Opcode::TmDel => 131,
            Opcode::TmSync => 132,
            Opcode::TmRecv => 133,
            Opcode::TmNoTag => 134,
            Opcode::Driver1 => 135,
            Opcode::Driver2 => 136,
            Opcode::Driver3 => 137,
        }
    }
}

impl TryFrom<u32> for Opcode {
    type Error = ();

    /// Reads a wire value: the completed operation that it stands for, or a conversion
    /// failure where it stands for none.
    fn try_from(value: u32) -> (r: Result<Self, ()>) {
        match value {
            0 => Ok(Opcode::Send),
            1 => Ok(Opcode::RdmaWrite),
            2 => Ok(Opcode::RdmaRead),
            3 => Ok(Opcode::CompSwap),
            4 => Ok(Opcode::FetchAdd),
            5 => Ok(Opcode::BindMw),
            6 => Ok(Opcode::LocalInv),
            7 => Ok(Opcode::Tso),
            128 => Ok(Opcode::Recv),
            129 => Ok(Opcode::RecvRdmaWithImm),
            130 => Ok(Opcode::TmAdd),
            131 => Ok(Opcode::TmDel),
            132 => Ok(Opcode::TmSync),
            133 => Ok(Opcode::TmRecv),
            134 => Ok(Opcode::TmNoTag),
            135 => Ok(Opcode::Driver1),
            136 => Ok(Opcode::Driver2),
            137 => Ok(Opcode::Driver3),
            _ => Err(()),
        }
    }
}

impl TryFromSpecImpl<u32> for Opcode {
    open spec fn obeys_try_from_spec() -> bool {
        true
    }

    open spec fn try_from_spec(value: u32) -> Result<Self, ()> {
        match Opcode::decode(value) {
            Some(x) => Ok(x),
            None => Err(()),
        }
    }
}

/// Reading the wire value of a completed operation gives that completed operation back, and a wire value
/// that reads as a completed operation is the wire value of what it reads as: no other
/// value is accepted.
pub proof fn lemma_opcode_round_trip(x: Opcode, value: u32)
    ensures
        Opcode::decode(x.raw()) == Some(x),
        Opcode::decode(value) is Some ==> Opcode::decode(value)->0.raw() == value,
{
}
/// Why a work request failed, as its completion reports it.
#[derive(Debug, Clone, Copy, PartialEq, Eq, Structural)]
pub enum WorkCompletionError {
    LocalLength,
    LocalQPOperation,
    LocalEEContextOperation,
    LocalProtection,
    WRFlush,
    MWBind,
    BadResponse,
    LocalAccess,
    RemoteInvalidRequest,
    RemoteAccess,
    RemoteOperation,
    RetryExceeded,
    RnrRetryExceeded,
    LocalRDDViolation,
    RemoteInvalidRDRequest,
    RemoteAborted,
    InvalidEEContextNumber,
    InvalidEEContextState,
    Fatal,
    ResponseTimeout,
    General,
    TagMatching,
    TagMatchingRndvIncomplete,
}

impl WorkCompletionError {
    /// The wire value of the completion failure.
    pub open spec fn raw(self) -> u32 {
        match self {
            WorkCompletionError::LocalLength => 1,
            WorkCompletionError::LocalQPOperation => 2,
            WorkCompletionError::LocalEEContextOperation => 3,
            WorkCompletionError::LocalProtection => 4,
            WorkCompletionError::WRFlush => 5,
            WorkCompletionError::MWBind => 6,
            WorkCompletionError::BadResponse => 7,
            WorkCompletionError::LocalAccess => 8,
            WorkCompletionError::RemoteInvalidRequest => 9,
            WorkCompletionError::RemoteAccess => 10,
            WorkCompletionError::RemoteOperation => 11,
            WorkCompletionError::RetryExceeded => 12,
            WorkCompletionError::RnrRetryExceeded => 13,
            WorkCompletionError::LocalRDDViolation => 14,
            WorkCompletionError::RemoteInvalidRDRequest => 15,
            WorkCompletionError::RemoteAborted => 16,
            WorkCompletionError::InvalidEEContextNumber => 17,
            WorkCompletionError::InvalidEEContextState => 18,
            WorkCompletionError::Fatal => 19,
            WorkCompletionError::ResponseTimeout => 20,
            WorkCompletionError::General => 21,
            WorkCompletionError::TagMatching => 22,
            WorkCompletionError::TagMatchingRndvIncomplete => 23,
        }
    }

    /// The completion failure that the wire value `value` stands for, if it stands for one.
    pub open spec fn decode(value: u32) -> Option<WorkCompletionError> {
        if value == 1 {
            Some(WorkCompletionError::LocalLength)
        } else if value == 2 {
            Some(WorkCompletionError::LocalQPOperation)
        } else if value == 3 {
            Some(WorkCompletionError::LocalEEContextOperation)
        } else if value == 4 {
            Some(WorkCompletionError::LocalProtection)
        } else if value == 5 {
            Some(WorkCompletionError::WRFlush)
        } else if value == 6 {
            Some(WorkCompletionError::MWBind)
        } else if value == 7 {
            Some(WorkCompletionError::BadResponse)
        } else if value == 8 {
            Some(WorkCompletionError::LocalAccess)
        } else if value == 9 {
            Some(WorkCompletionError::RemoteInvalidRequest)
        } else if value == 10 {
            Some(WorkCompletionError::RemoteAccess)
        } else if value == 11 {
            Some(WorkCompletionError::RemoteOperation)
        } else if value == 12 {
            Some(WorkCompletionError::RetryExceeded)
        } else if value == 13 {
            Some(WorkCompletionError::RnrRetryExceeded)
        } else if value == 14 {
            Some(WorkCompletionError::LocalRDDViolation)
        } else if value == 15 {
            Some(WorkCompletionError::RemoteInvalidRDRequest)
        } else if value == 16 {
            Some(WorkCompletionError::RemoteAborted)
        } else if value == 17 {
            Some(WorkCompletionError::InvalidEEContextNumber)
        } else if value == 18 {
            Some(WorkCompletionError::InvalidEEContextState)
        } else if value == 19 {
            Some(WorkCompletionError::Fatal)
        } else if value == 20 {
            Some(WorkCompletionError::ResponseTimeout)
        } else if value == 21 {
            Some(WorkCompletionError::General)
        } else if value == 22 {
            Some(WorkCompletionError::TagMatching)
        } else if value == 23 {
            Some(WorkCompletionError::TagMatchingRndvIncomplete)
        } else {
            None
        }
    }

    /// The wire value of the completion failure.
    pub fn to_c_uint(self) -> (r: u32)
        ensures
            r == self.raw(),
            WorkCompletionError::decode(r) == Some(self),
    {
        match self {
            WorkCompletionError::LocalLength => 1,
            WorkCompletionError::LocalQPOperation => 2,
            WorkCompletionError::LocalEEContextOperation => 3,
            WorkCompletionError::LocalProtection => 4,
            WorkCompletionError::WRFlush => 5,
            WorkCompletionError::MWBind => 6,
            WorkCompletionError::BadResponse => 7,
            WorkCompletionError::LocalAccess => 8,
            WorkCompletionError::RemoteInvalidRequest => 9,
            WorkCompletionError::RemoteAccess => 10,
            WorkCompletionError::RemoteOperation => 11,
            WorkCompletionError::RetryExceeded => 12,
            WorkCompletionError::RnrRetryExceeded => 13,
            WorkCompletionError::LocalRDDViolation => 14,
            WorkCompletionError::RemoteInvalidRDRequest => 15,
            WorkCompletionError::RemoteAborted => 16,
            WorkCompletionError::InvalidEEContextNumber => 17,
            WorkCompletionError::InvalidEEContextState => 18,
            WorkCompletionError::Fatal => 19,
            WorkCompletionError::ResponseTimeout => 20,
            WorkCompletionError::General => 21,
            WorkCompletionError::TagMatching => 22,
            WorkCompletionError::TagMatchingRndvIncomplete => 23,
        }
    }
}

impl TryFrom<u32> for WorkCompletionError {
    type Error = ();

    /// Reads a wire value: the completion failure that it stands for, or a conversion
    /// failure where it stands for none.
    fn try_from(value: u32) -> (r: Result<Self, ()>) {
        match value {
            1 => Ok(WorkCompletionError::LocalLength),
            2 => Ok(WorkCompletionError::LocalQPOperation),
            3 => Ok(WorkCompletionError::LocalEEContextOperation),
            4 => Ok(WorkCompletionError::LocalProtection),
            5 => Ok(WorkCompletionError::WRFlush),
            6 => Ok(WorkCompletionError::MWBind),
            7 => Ok(WorkCompletionError::BadResponse),
            8 => Ok(WorkCompletionError::LocalAccess),
            9 => Ok(WorkCompletionError::RemoteInvalidRequest),
            10 => Ok(WorkCompletionError::RemoteAccess),
            11 => Ok(WorkCompletionError::RemoteOperation),
            12 => Ok(WorkCompletionError::RetryExceeded),
            13 => Ok(WorkCompletionError::RnrRetryExceeded),
            14 => Ok(WorkCompletionError::LocalRDDViolation),
            15 => Ok(WorkCompletionError::RemoteInvalidRDRequest),
            16 => Ok(WorkCompletionError::RemoteAborted),
            17 => Ok(WorkCompletionError::InvalidEEContextNumber),
            18 => Ok(WorkCompletionError::InvalidEEContextState),
            19 => Ok(WorkCompletionError::Fatal),
            20 => Ok(WorkCompletionError::ResponseTimeout),
            21 => Ok(WorkCompletionError::General),
            22 => Ok(WorkCompletionError::TagMatching),
            23 => Ok(WorkCompletionError::TagMatchingRndvIncomplete),
            _ => Err(()),
        }
    }
}

impl TryFromSpecImpl<u32> for WorkCompletionError {
    open spec fn obeys_try_from_spec() -> bool {
        true
    }

    open spec fn try_from_spec(value: u32) -> Result<Self, ()> {
        match WorkCompletionError::decode(value) {
            Some(x) => Ok(x),
            None => Err(()),
        }
    }
}

/// Reading the wire value of a completion failure gives that completion failure back, and a wire value
/// that reads as a completion failure is the wire value of what it reads as: no other
/// value is accepted.
pub proof fn lemma_status_round_trip(x: WorkCompletionError, value: u32)
    ensures
        WorkCompletionError::decode(x.raw()) == Some(x),
        WorkCompletionError::decode(value) is Some ==> WorkCompletionError::decode(value)->0.raw() == value,
{
}
impl WorkCompletionError {
    /// Whether `status` is the status of a success or the wire value of a
    /// failure.
    pub open spec fn known(status: u32) -> bool {
        status == WC_SUCCESS || WorkCompletionError::decode(status) is Some
    }

    /// Reads the status of a completion: success, or the failure that the
    /// status stands for. The status must be known, see [`Self::known`]; a
    /// status that is not is told apart by [`WorkCompletionError::try_from`].
    pub fn result(status: u32) -> (r: Result<(), WorkCompletionError>)
        requires
            WorkCompletionError::known(status),
        ensures
            status == WC_SUCCESS ==> r is Ok,
            status != WC_SUCCESS ==> r == Err::<(), WorkCompletionError>(
                WorkCompletionError::decode(status)->0,
            ),
    {
        if status == WC_SUCCESS {
            Ok(())
        } else {
            match WorkCompletionError::try_from(status) {
                Ok(e) => Err(e),
                Err(_) => Ok(()),
            }
        }
    }

    /// The name of the failure.
    pub open spec fn spec_name(self) -> Seq<char> {
        match self {
            WorkCompletionError::LocalLength => "LocalLength"@,
            WorkCompletionError::LocalQPOperation => "LocalQPOperation"@,
            WorkCompletionError::LocalEEContextOperation => "LocalEEContextOperation"@,
            WorkCompletionError::LocalProtection => "LocalProtection"@,
            WorkCompletionError::WRFlush => "WRFlush"@,
            WorkCompletionError::MWBind => "MWBind"@,
            WorkCompletionError::BadResponse => "BadResponse"@,
            WorkCompletionError::LocalAccess => "LocalAccess"@,
            WorkCompletionError::RemoteInvalidRequest => "RemoteInvalidRequest"@,
            WorkCompletionError::RemoteAccess => "RemoteAccess"@,
            WorkCompletionError::RemoteOperation => "RemoteOperation"@,
            WorkCompletionError::RetryExceeded => "RetryExceeded"@,
            WorkCompletionError::RnrRetryExceeded => "RnrRetryExceeded"@,
            WorkCompletionError::LocalRDDViolation => "LocalRDDViolation"@,
            WorkCompletionError::RemoteInvalidRDRequest => "RemoteInvalidRDRequest"@,
            WorkCompletionError::RemoteAborted => "RemoteAborted"@,
            WorkCompletionError::InvalidEEContextNumber => "InvalidEEContextNumber"@,
            WorkCompletionError::InvalidEEContextState => "InvalidEEContextState"@,
            WorkCompletionError::Fatal => "Fatal"@,
            WorkCompletionError::ResponseTimeout => "ResponseTimeout"@,
            WorkCompletionError::General => "General"@,
            WorkCompletionError::TagMatching => "TagMatching"@,
            WorkCompletionError::TagMatchingRndvIncomplete => "TagMatchingRndvIncomplete"@,
        }
    }

    /// The name of the failure, as text.
    pub fn name(&self) -> (r: &'static str)
        ensures
            r@ == self.spec_name(),
    {
        match self {
            WorkCompletionError::LocalLength => "LocalLength",
            WorkCompletionError::LocalQPOperation => "LocalQPOperation",
            WorkCompletionError::LocalEEContextOperation => "LocalEEContextOperation",
            WorkCompletionError::LocalProtection => "LocalProtection",
            WorkCompletionError::WRFlush => "WRFlush",
            WorkCompletionError::MWBind => "MWBind",
            WorkCompletionError::BadResponse => "BadResponse",
            WorkCompletionError::LocalAccess => "LocalAccess",
            WorkCompletionError::RemoteInvalidRequest => "RemoteInvalidRequest",
            WorkCompletionError::RemoteAccess => "RemoteAccess",
            WorkCompletionError::RemoteOperation => "RemoteOperation",
            WorkCompletionError::RetryExceeded => "RetryExceeded",
            WorkCompletionError::RnrRetryExceeded => "RnrRetryExceeded",
            WorkCompletionError::LocalRDDViolation => "LocalRDDViolation",
            WorkCompletionError::RemoteInvalidRDRequest => "RemoteInvalidRDRequest",
            WorkCompletionError::RemoteAborted => "RemoteAborted",
            WorkCompletionError::InvalidEEContextNumber => "InvalidEEContextNumber",
            WorkCompletionError::InvalidEEContextState => "InvalidEEContextState",
            WorkCompletionError::Fatal => "Fatal",
            WorkCompletionError::ResponseTimeout => "ResponseTimeout",
            WorkCompletionError::General => "General",
            WorkCompletionError::TagMatching => "TagMatching",
            WorkCompletionError::TagMatchingRndvIncomplete => "TagMatchingRndvIncomplete",
        }
    }
}

} // verus!
