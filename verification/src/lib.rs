//! A verified front end for Bessel-function kernels.
//!
//! The numerical kernels work in double precision and live outside this
//! library. What is decided around them is decided here, on integers and on
//! the bit patterns of doubles: whether a request lies in the domain of its
//! function family, whether a result buffer fits the requested order range,
//! which kernel routine serves a request, and what the kernel's report means.
//!
//! Every evaluation is split in two around the kernel's run. A `*_plan`
//! function says what to run, if anything; the function without the suffix
//! takes what the kernel reported and says how the evaluation ended.

pub mod array;
pub mod binary64;
pub mod family;
pub mod routine;
pub mod scalar;
pub mod sequence;
pub mod status;

pub use crate::array::{
    array, array_plan, check_range, scaled_array, scaled_array_plan, steed_array, steed_array_plan,
    ContractViolation,
};
pub use crate::binary64::Binary64;
pub use crate::family::{check_domain, FunctionFamily, Order};
pub use crate::routine::{select, ArrayRoutine, ScalarRoutine};
pub use crate::scalar::{
    routine_plan, routine_scalar, routine_scalar_with_error, scalar, scalar_plan,
    scalar_with_error, EvaluationRequest, EvaluationResult, KernelReport,
};
pub use crate::sequence::{check_ascending_positive, sequence, sequence_plan, SequenceCall};
pub use crate::status::{Mode, StatusCode};
