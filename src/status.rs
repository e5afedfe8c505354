use vstd::prelude::*;

verus! {

/// Outcome of a variable service call, one variant per UEFI status code that
/// the variable services report.
#[derive(Clone, Copy, Debug, PartialEq, Eq, Structural)]
pub enum EfiStatus {
    Success,
    InvalidParameter,
    NotFound,
    BufferTooSmall,
    Unsupported,
    SecurityViolation,
    DeviceError,
}

impl EfiStatus {
    pub fn is_success(&self) -> (r: bool)
        ensures
            r == (*self is Success),
    {
        match self {
            EfiStatus::Success => true,
            _ => false,
        }
    }

    pub fn is_error(&self) -> (r: bool)
        ensures
            r == !(*self is Success),
    {
        !self.is_success()
    }
}

} // verus!
