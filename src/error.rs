use vstd::prelude::*;

verus! {

/// Outcome of every exported operation; the numeric codes are a stable ABI.
#[derive(Debug, Clone, Copy, PartialEq, Eq, Structural)]
pub enum YAError {
    /// The operation completed.
    Success,
    /// The input backend could not be opened, or it refused the action.
    PlatformError,
    /// The clipboard could not be opened, or it refused the write.
    ClipboardError,
    /// The arguments were malformed or unsupported; no device was touched.
    InvalidInput,
}

/// The stable numeric value of each error code.
pub open spec fn code_of(e: YAError) -> int {
    match e {
        YAError::Success => 0,
        YAError::PlatformError => -1,
        YAError::ClipboardError => -2,
        YAError::InvalidInput => -3,
    }
}

impl YAError {
    /// The numeric code that callers across the ABI branch on.
    pub fn code(&self) -> (r: i32)
        ensures
            r == code_of(*self),
    {
        match self {
            YAError::Success => 0,
            YAError::PlatformError => -1,
            YAError::ClipboardError => -2,
            YAError::InvalidInput => -3,
        }
    }
}

/// Distinct error codes have distinct numeric values.
pub proof fn lemma_codes_distinct(a: YAError, b: YAError)
    ensures
        code_of(a) == code_of(b) <==> a == b,
{
}

} // verus!
