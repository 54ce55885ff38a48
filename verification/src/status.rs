//! Outcome classification and the precision modes of the kernels.

use vstd::prelude::*;

verus! {

/// How an evaluation ended.
#[derive(Clone, Copy, Debug, PartialEq, Eq, Structural)]
pub enum StatusCode {
    /// The value is reliable.
    Success,
    /// The order or the argument is invalid for the function family.
    DomainError,
    /// The true result exceeds the representable range.
    OverflowError,
    /// The true result is too small to be represented and was flushed to zero.
    UnderflowError,
    /// A value was computed, with reduced confidence.
    PrecisionLoss,
    /// The computation did not converge.
    ArithmeticFailure,
}

/// The kernel's code for a reliable result.
pub const NATIVE_SUCCESS: i32 = 0;

/// The kernel's code for an argument outside the domain.
pub const NATIVE_DOMAIN: i32 = 1;

/// The kernel's code for an iteration that ran out of steps.
pub const NATIVE_MAX_ITERATIONS: i32 = 11;

/// The kernel's code for underflow.
pub const NATIVE_UNDERFLOW: i32 = 15;

/// The kernel's code for overflow.
pub const NATIVE_OVERFLOW: i32 = 16;

/// The kernel's code for loss of accuracy.
pub const NATIVE_ACCURACY_LOSS: i32 = 17;

/// The status that a kernel code stands for. A code that names none of
/// success, domain, overflow, underflow and loss of accuracy stands for a
/// computation that failed.
pub open spec fn classify(code: int) -> StatusCode {
    if code == NATIVE_SUCCESS {
        StatusCode::Success
    } else if code == NATIVE_DOMAIN {
        StatusCode::DomainError
    } else if code == NATIVE_OVERFLOW {
        StatusCode::OverflowError
    } else if code == NATIVE_UNDERFLOW {
        StatusCode::UnderflowError
    } else if code == NATIVE_ACCURACY_LOSS {
        StatusCode::PrecisionLoss
    } else {
        StatusCode::ArithmeticFailure
    }
}

impl StatusCode {
    /// The kernel code that stands for this status when one has to be reported
    /// in the kernel's own terms.
    pub open spec fn native_code(self) -> int {
        match self {
            StatusCode::Success => NATIVE_SUCCESS as int,
            StatusCode::DomainError => NATIVE_DOMAIN as int,
            StatusCode::OverflowError => NATIVE_OVERFLOW as int,
            StatusCode::UnderflowError => NATIVE_UNDERFLOW as int,
            StatusCode::PrecisionLoss => NATIVE_ACCURACY_LOSS as int,
            StatusCode::ArithmeticFailure => NATIVE_MAX_ITERATIONS as int,
        }
    }

    /// Classifies a code reported by a kernel.
    pub fn from_native(code: i32) -> (status: StatusCode)
        ensures
            status == classify(code as int),
    {
        if code == NATIVE_SUCCESS {
            StatusCode::Success
        } else if code == NATIVE_DOMAIN {
            StatusCode::DomainError
        } else if code == NATIVE_OVERFLOW {
            StatusCode::OverflowError
        } else if code == NATIVE_UNDERFLOW {
            StatusCode::UnderflowError
        } else if code == NATIVE_ACCURACY_LOSS {
            StatusCode::PrecisionLoss
        } else {
            StatusCode::ArithmeticFailure
        }
    }

    /// The kernel code for this status.
    pub fn to_native(self) -> (code: i32)
        ensures
            code == self.native_code(),
    {
        match self {
            StatusCode::Success => NATIVE_SUCCESS,
            StatusCode::DomainError => NATIVE_DOMAIN,
            StatusCode::OverflowError => NATIVE_OVERFLOW,
            StatusCode::UnderflowError => NATIVE_UNDERFLOW,
            StatusCode::PrecisionLoss => NATIVE_ACCURACY_LOSS,
            StatusCode::ArithmeticFailure => NATIVE_MAX_ITERATIONS,
        }
    }

    /// Whether the value that came with this status can be relied on.
    pub fn is_success(self) -> (ok: bool)
        ensures
            ok == (self == StatusCode::Success),
    {
        match self {
            StatusCode::Success => true,
            _ => false,
        }
    }
}

/// How hard a kernel is to try: the precision it aims for. The mode changes
/// how a kernel works, never what a call means.
#[derive(Clone, Copy, Debug, PartialEq, Eq, Structural)]
pub enum Mode {
    /// Double precision.
    Double,
    /// Single precision.
    Single,
    /// Approximate values, fastest.
    ApproximatePrecision,
}

impl Mode {
    /// The word that the kernel knows the mode by.
    pub open spec fn word(self) -> int {
        match self {
            Mode::Double => 0,
            Mode::Single => 1,
            Mode::ApproximatePrecision => 2,
        }
    }

    /// The word that the kernel knows the mode by.
    pub fn to_word(self) -> (word: u32)
        ensures
            word == self.word(),
    {
        match self {
            Mode::Double => 0,
            Mode::Single => 1,
            Mode::ApproximatePrecision => 2,
        }
    }

    /// The mode that a kernel word stands for, if it stands for one.
    pub fn from_word(word: u32) -> (mode: Option<Mode>)
        ensures
            mode matches Some(m) ==> m.word() == word,
            mode is None <==> word > 2,
    {
        if word == 0 {
            Some(Mode::Double)
        } else if word == 1 {
            Some(Mode::Single)
        } else if word == 2 {
            Some(Mode::ApproximatePrecision)
        } else {
            None
        }
    }
}

/// Every status survives the trip through its kernel code.
pub proof fn native_code_round_trip(status: StatusCode)
    ensures
        classify(status.native_code()) == status,
{
}

/// Zero is the only kernel code that classifies as success.
pub proof fn success_is_code_zero(code: int)
    ensures
        classify(code) == StatusCode::Success <==> code == 0,
{
}

} // verus!
