use vstd::prelude::*;

verus! {

/// Every way an instruction of this program can fail.
#[derive(Debug, Clone, Copy, PartialEq, Eq, Structural)]
pub enum StudentIntroError {
    /// A supplied address differs from the one derived for it.
    InvalidPDA,
    /// The record that an update needs is not in the initialized state.
    UninitializedAccount,
    /// The serialized record would not fit the space reserved for it.
    InvalidDataLength,
    /// A record was to be created where one is already initialized.
    AccountAlreadyInitialized,
    /// The acting party did not sign the call.
    MissingSignature,
    /// The payload has no tag, an unknown tag, or fields that do not decode.
    InvalidInstructionData,
    /// Fewer accounts were supplied than the instruction reads.
    NotEnoughAccountKeys,
    /// A stored record does not decode.
    InvalidAccountData,
    /// The reply counter cannot be advanced any further.
    CounterOverflow,
    /// No derived address exists for the seeds.
    NoDerivedAddress,
}

/// The stable number of each error, as reported to the host.
pub open spec fn error_code(e: StudentIntroError) -> u32 {
    match e {
        StudentIntroError::InvalidPDA => 0,
        StudentIntroError::UninitializedAccount => 1,
        StudentIntroError::InvalidDataLength => 2,
        StudentIntroError::AccountAlreadyInitialized => 3,
        StudentIntroError::MissingSignature => 4,
        StudentIntroError::InvalidInstructionData => 5,
        StudentIntroError::NotEnoughAccountKeys => 6,
        StudentIntroError::InvalidAccountData => 7,
        StudentIntroError::CounterOverflow => 8,
        StudentIntroError::NoDerivedAddress => 9,
    }
}

impl StudentIntroError {
    /// The number under which the host reports this error.
    pub fn code(&self) -> (r: u32)
        ensures
            r == error_code(*self),
    {
        match self {
            StudentIntroError::InvalidPDA => 0,
            StudentIntroError::UninitializedAccount => 1,
            StudentIntroError::InvalidDataLength => 2,
            StudentIntroError::AccountAlreadyInitialized => 3,
            StudentIntroError::MissingSignature => 4,
            StudentIntroError::InvalidInstructionData => 5,
            StudentIntroError::NotEnoughAccountKeys => 6,
            StudentIntroError::InvalidAccountData => 7,
            StudentIntroError::CounterOverflow => 8,
            StudentIntroError::NoDerivedAddress => 9,
        }
    }
}

/// Distinct errors are reported under distinct numbers.
pub proof fn lemma_error_codes_distinct(a: StudentIntroError, b: StudentIntroError)
    requires
        a != b,
    ensures
        error_code(a) != error_code(b),
{
}

} // verus!
