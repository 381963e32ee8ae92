use vstd::prelude::*;

verus! {

/// Why an optimisation call failed, kept as a tagged value until the
/// single point where it is flattened into an integer status.
#[derive(PartialEq, Eq, Structural, Clone, Copy, Debug)]
pub enum BridgeError {
    /// One of the two path arguments was absent.
    MissingArgument,
    /// One of the two paths is not valid UTF-8.
    InvalidEncoding,
    /// The input file could not be opened for reading.
    InputOpen,
    /// The output file could not be created or truncated.
    OutputOpen,
    /// The remuxing engine, or the I/O it needed, failed.
    Remux,
}

/// Status returned on success.
pub const STATUS_OK: i32 = 0;

/// The status that stands for an error at the foreign boundary.
pub open spec fn error_code(e: BridgeError) -> int {
    match e {
        BridgeError::MissingArgument => -1,
        BridgeError::InvalidEncoding => -2,
        BridgeError::InputOpen => -3,
        BridgeError::OutputOpen => -4,
        BridgeError::Remux => -5,
    }
}

/// The status of a whole call: zero on success, the error's code otherwise.
pub open spec fn outcome_code(r: Result<(), BridgeError>) -> int {
    match r {
        Ok(()) => STATUS_OK as int,
        Err(e) => error_code(e),
    }
}

impl BridgeError {
    /// The negative status that stands for this error.
    pub fn code(&self) -> (c: i32)
        ensures
            c == error_code(*self),
            c < 0,
    {
        match self {
            BridgeError::MissingArgument => -1,
            BridgeError::InvalidEncoding => -2,
            BridgeError::InputOpen => -3,
            BridgeError::OutputOpen => -4,
            BridgeError::Remux => -5,
        }
    }
}

/// Flattens the outcome of a call into the integer status of the foreign
/// boundary.
pub fn status_code(r: &Result<(), BridgeError>) -> (c: i32)
    ensures
        c == outcome_code(*r),
        c == 0 <==> r is Ok,
{
    match r {
        Ok(()) => STATUS_OK,
        Err(e) => e.code(),
    }
}

/// Distinct errors are reported under distinct statuses, and none of them
/// under the success status.
pub proof fn lemma_error_codes_distinct(a: BridgeError, b: BridgeError)
    ensures
        error_code(a) == error_code(b) <==> a == b,
        error_code(a) != STATUS_OK,
{
}

} // verus!
