//! Evaluation of one function at one argument.
//!
//! An evaluation has three steps. `scalar_plan` decides whether the request
//! lies in the domain of its family and, if it does, names the kernel routine
//! to run. The caller runs that routine. `scalar_with_error` (or `scalar`, for
//! callers that want the value alone) then turns what the kernel handed back
//! into the result. A request outside the domain never reaches a kernel, and
//! nothing that a kernel may have reported for it reaches the caller.
//!
//! `scalar_plan` picks the most special routine that serves a request. A
//! caller who wants one routine and no other names it: `routine_plan`,
//! `routine_scalar_with_error` and `routine_scalar` are the same three steps
//! for a routine of the caller's choice, with the domain of that routine.

use vstd::prelude::*;
use crate::binary64::{
    lemma_magnitude_zero, Binary64, INFINITY_BITS, NEGATIVE_INFINITY_BITS, SMALLEST_NORMAL_BITS,
};
use crate::family::{check_domain, in_domain, FunctionFamily, Order};
use crate::routine::{select, selected, ScalarRoutine};
use crate::status::{classify, StatusCode, NATIVE_DOMAIN};

verus! {

/// A request that lies in the domain of its family.
#[derive(Clone, Copy, Debug, PartialEq, Eq, Structural)]
pub struct EvaluationRequest {
    family: FunctionFamily,
    order: Order,
    x: Binary64,
}

/// What an error-aware kernel routine hands back: its status code, the value
/// and its estimate of the absolute error.
#[derive(Clone, Copy, Debug, PartialEq, Eq, Structural)]
pub struct KernelReport {
    pub code: i32,
    pub value: Binary64,
    pub error: Binary64,
}

/// A value with an estimate of its absolute error. The estimate is a number
/// and is not negative.
#[derive(Clone, Copy, Debug, PartialEq, Eq, Structural)]
pub struct EvaluationResult {
    value: Binary64,
    error: Binary64,
}

/// An error estimate that can be relied on as a bound: a number, zero or more.
/// Positive infinity is one, and bounds nothing.
pub open spec fn valid_estimate(error: Binary64) -> bool {
    !error.nan() && error.value() >= 0
}

impl EvaluationRequest {
    #[verifier::type_invariant]
    spec fn inv(self) -> bool {
        in_domain(self.family, self.order, self.x)
    }

    /// The family of the request, for contracts.
    pub closed spec fn spec_family(self) -> FunctionFamily {
        self.family
    }

    /// The order of the request, for contracts.
    pub closed spec fn spec_order(self) -> Order {
        self.order
    }

    /// The argument of the request, for contracts.
    pub closed spec fn spec_x(self) -> Binary64 {
        self.x
    }

    /// Admits a request that lies in the domain of its family.
    pub fn new(family: FunctionFamily, order: Order, x: Binary64) -> (made: Result<
        EvaluationRequest,
        StatusCode,
    >)
        ensures
            in_domain(family, order, x) ==> (made matches Ok(request) && request.family() == family
                && request.order() == order && request.x() == x),
            !in_domain(family, order, x) ==> made == Err::<EvaluationRequest, StatusCode>(
                StatusCode::DomainError,
            ),
    {
        if check_domain(family, order, x) {
            Ok(EvaluationRequest { family, order, x })
        } else {
            Err(StatusCode::DomainError)
        }
    }

    /// The family of the function to evaluate.
    #[verifier::when_used_as_spec(spec_family)]
    pub fn family(self) -> (family: FunctionFamily)
        ensures
            family == self.family(),
            in_domain(self.family(), self.order(), self.x()),
    {
        proof {
            use_type_invariant(self);
        }
        self.family
    }

    /// The order at which to evaluate.
    #[verifier::when_used_as_spec(spec_order)]
    pub fn order(self) -> (order: Order)
        ensures
            order == self.order(),
            in_domain(self.family(), self.order(), self.x()),
    {
        proof {
            use_type_invariant(self);
        }
        self.order
    }

    /// The argument at which to evaluate.
    #[verifier::when_used_as_spec(spec_x)]
    pub fn x(self) -> (x: Binary64)
        ensures
            x == self.x(),
            in_domain(self.family(), self.order(), self.x()),
    {
        proof {
            use_type_invariant(self);
        }
        self.x
    }

    /// The kernel routine that serves the request.
    pub fn routine(self) -> (routine: ScalarRoutine)
        ensures
            selected(self.family(), self.order()) == Some(routine),
            routine.serves(self.family(), self.order()),
    {
        proof {
            use_type_invariant(self);
        }
        select(self.family, self.order).unwrap()
    }
}

impl EvaluationResult {
    #[verifier::type_invariant]
    spec fn inv(self) -> bool {
        valid_estimate(self.error)
    }

    /// The value, for contracts.
    pub closed spec fn spec_value(self) -> Binary64 {
        self.value
    }

    /// The error estimate, for contracts.
    pub closed spec fn spec_error(self) -> Binary64 {
        self.error
    }

    /// Pairs a value with an error estimate, if the estimate is a number that
    /// is not negative.
    pub fn new(value: Binary64, error: Binary64) -> (made: Option<EvaluationResult>)
        ensures
            valid_estimate(error) ==> (made matches Some(result) && result.value() == value
                && result.error() == error),
            !valid_estimate(error) ==> made is None,
    {
        if error.is_non_negative() {
            Some(EvaluationResult { value, error })
        } else {
            None
        }
    }

    /// The computed value.
    #[verifier::when_used_as_spec(spec_value)]
    pub fn value(self) -> (value: Binary64)
        ensures
            value == self.value(),
    {
        self.value
    }

    /// The estimate of the absolute error of the value.
    #[verifier::when_used_as_spec(spec_error)]
    pub fn error(self) -> (error: Binary64)
        ensures
            error == self.error(),
            valid_estimate(error),
    {
        proof {
            use_type_invariant(self);
        }
        self.error
    }
}

/// The bound that is kept of a kernel's estimate: the estimate itself where it
/// is a bound, positive infinity, which bounds nothing, where it is not.
pub open spec fn kept_bound(error: Binary64) -> Binary64 {
    if valid_estimate(error) {
        error
    } else {
        Binary64 { bits: INFINITY_BITS }
    }
}

/// The infinity with the sign of `value`: the extreme that a result too large
/// to be represented saturates to.
pub open spec fn saturated(value: Binary64) -> Binary64 {
    if value.sign_negative() {
        Binary64 { bits: NEGATIVE_INFINITY_BITS }
    } else {
        Binary64 { bits: INFINITY_BITS }
    }
}

/// The status, the value and the error estimate that an error-aware
/// evaluation ends with, given whether the request was admitted to the domain
/// and what the kernel reported.
///
/// For a request that was not admitted the report counts for nothing: the
/// status is a domain error, value and estimate are zero. The same holds
/// where the kernel itself reports a domain error. On overflow the value is
/// the infinity with the sign of the kernel's value, and the estimate is
/// infinite. On underflow the value is zero and the estimate is the smallest
/// positive normal number, below which the result was lost. A success keeps
/// the kernel's value and estimate; but a success whose estimate is a NaN or
/// negative is no success: it counts as an arithmetic failure. Every other
/// status keeps the kernel's value, and the kernel's estimate where that is a
/// bound.
pub open spec fn outcome(admitted: bool, report: KernelReport) -> (StatusCode, Binary64, Binary64) {
    let status = classify(report.code as int);
    if !admitted {
        (StatusCode::DomainError, Binary64 { bits: 0 }, Binary64 { bits: 0 })
    } else {
        match status {
            StatusCode::DomainError => (
                StatusCode::DomainError,
                Binary64 { bits: 0 },
                Binary64 { bits: 0 },
            ),
            StatusCode::OverflowError => (
                StatusCode::OverflowError,
                saturated(report.value),
                Binary64 { bits: INFINITY_BITS },
            ),
            StatusCode::UnderflowError => (
                StatusCode::UnderflowError,
                Binary64 { bits: 0 },
                Binary64 { bits: SMALLEST_NORMAL_BITS },
            ),
            StatusCode::Success => if valid_estimate(report.error) {
                (StatusCode::Success, report.value, report.error)
            } else {
                (StatusCode::ArithmeticFailure, report.value, Binary64 { bits: INFINITY_BITS })
            },
            StatusCode::PrecisionLoss | StatusCode::ArithmeticFailure => (
                status,
                report.value,
                kept_bound(report.error),
            ),
        }
    }
}

/// The value that a plain evaluation ends with, given whether the request
/// was admitted to the domain and the value that the kernel returned: the
/// kernel's value for an admitted request, zero otherwise.
pub open spec fn plain_value(admitted: bool, kernel_value: Binary64) -> Binary64 {
    if admitted {
        kernel_value
    } else {
        Binary64 { bits: 0 }
    }
}

/// What an error-aware evaluation of `family` at `order` and `x` ends with:
/// `outcome` for a request that is admitted where it lies in the domain of
/// the family.
pub open spec fn scalar_outcome(
    family: FunctionFamily,
    order: Order,
    x: Binary64,
    report: KernelReport,
) -> (StatusCode, Binary64, Binary64) {
    outcome(in_domain(family, order, x), report)
}

/// What a plain evaluation of `family` at `order` and `x` ends with: zero
/// outside the domain of the family, the kernel's value inside.
pub open spec fn scalar_value(
    family: FunctionFamily,
    order: Order,
    x: Binary64,
    kernel_value: Binary64,
) -> Binary64 {
    plain_value(in_domain(family, order, x), kernel_value)
}

/// What an error-aware evaluation by a routine that the caller names ends
/// with: `outcome` for a request that is admitted where the routine can be
/// run on it.
pub open spec fn routine_outcome(
    routine: ScalarRoutine,
    order: Order,
    x: Binary64,
    report: KernelReport,
) -> (StatusCode, Binary64, Binary64) {
    outcome(routine.admits(order, x), report)
}

/// What a plain evaluation by a routine that the caller names ends with: zero
/// where the routine cannot be run on the request, the kernel's value where
/// it can.
pub open spec fn routine_value(
    routine: ScalarRoutine,
    order: Order,
    x: Binary64,
    kernel_value: Binary64,
) -> Binary64 {
    plain_value(routine.admits(order, x), kernel_value)
}

/// Decides what to run for a request: the routine that serves it, or nothing
/// where the request lies outside the domain of its family.
pub fn scalar_plan(family: FunctionFamily, order: Order, x: Binary64) -> (plan: Option<
    ScalarRoutine,
>)
    ensures
        in_domain(family, order, x) ==> plan == selected(family, order) && plan is Some,
        !in_domain(family, order, x) ==> plan is None,
{
    match EvaluationRequest::new(family, order, x) {
        Ok(request) => Some(request.routine()),
        Err(_) => None,
    }
}

/// Decides whether to run a routine that the caller names: it is run exactly
/// where it can be run on the request.
pub fn routine_plan(routine: ScalarRoutine, order: Order, x: Binary64) -> (run: bool)
    ensures
        run == routine.admits(order, x),
        run ==> in_domain(routine.family(), order, x),
{
    routine.check_admits(order, x)
}

fn unbounded() -> (bound: Binary64)
    ensures
        bound.bits == INFINITY_BITS,
        valid_estimate(bound),
{
    let bound = Binary64::infinity();
    proof {
        lemma_magnitude_zero(bound);
    }
    bound
}

fn keep_bound(error: Binary64) -> (bound: Binary64)
    ensures
        bound == kept_bound(error),
        valid_estimate(bound),
{
    if error.is_non_negative() {
        error
    } else {
        unbounded()
    }
}

fn saturate(value: Binary64) -> (extreme: Binary64)
    ensures
        extreme == saturated(value),
        extreme.infinite(),
        extreme.sign_negative() == value.sign_negative(),
{
    if value.is_sign_negative() {
        Binary64::from_bits(NEGATIVE_INFINITY_BITS)
    } else {
        Binary64::infinity()
    }
}

fn smallest_normal() -> (bound: Binary64)
    ensures
        bound.bits == SMALLEST_NORMAL_BITS,
        valid_estimate(bound),
        bound.value() > 0,
{
    let bound = Binary64::from_bits(SMALLEST_NORMAL_BITS);
    proof {
        lemma_magnitude_zero(bound);
    }
    bound
}

fn conclude(admitted: bool, report: KernelReport) -> (out: (StatusCode, EvaluationResult))
    ensures
        (out.0, out.1.value(), out.1.error()) == outcome(admitted, report),
        out.0 == StatusCode::Success <==> admitted && report.code == 0 && valid_estimate(
            report.error,
        ),
        out.0 == StatusCode::Success ==> out.1.value() == report.value && out.1.error()
            == report.error,
        !admitted || report.code == NATIVE_DOMAIN ==> out.0 == StatusCode::DomainError,
        out.0 == StatusCode::DomainError ==> out.1.value().bits == 0 && out.1.error().bits == 0,
        out.0 == StatusCode::OverflowError ==> out.1.value().infinite() && out.1.error().infinite(),
        out.0 == StatusCode::UnderflowError ==> out.1.value().bits == 0 && 0 < out.1.error().value()
            <= (Binary64 { bits: SMALLEST_NORMAL_BITS }).value(),
        valid_estimate(out.1.error()),
{
    let zero = Binary64::zero();
    if !admitted {
        return (StatusCode::DomainError, EvaluationResult { value: zero, error: zero });
    }
    match StatusCode::from_native(report.code) {
        StatusCode::DomainError => (
            StatusCode::DomainError,
            EvaluationResult { value: zero, error: zero },
        ),
        StatusCode::OverflowError => (
            StatusCode::OverflowError,
            EvaluationResult { value: saturate(report.value), error: unbounded() },
        ),
        StatusCode::UnderflowError => (
            StatusCode::UnderflowError,
            EvaluationResult { value: zero, error: smallest_normal() },
        ),
        StatusCode::Success => if report.error.is_non_negative() {
            (StatusCode::Success, EvaluationResult { value: report.value, error: report.error })
        } else {
            (
                StatusCode::ArithmeticFailure,
                EvaluationResult { value: report.value, error: unbounded() },
            )
        },
        StatusCode::PrecisionLoss => (
            StatusCode::PrecisionLoss,
            EvaluationResult { value: report.value, error: keep_bound(report.error) },
        ),
        StatusCode::ArithmeticFailure => (
            StatusCode::ArithmeticFailure,
            EvaluationResult { value: report.value, error: keep_bound(report.error) },
        ),
    }
}

/// Concludes an error-aware evaluation. `report` is what the routine named by
/// `scalar_plan` handed back; where the plan named none, any report will do.
pub fn scalar_with_error(
    family: FunctionFamily,
    order: Order,
    x: Binary64,
    report: KernelReport,
) -> (out: (StatusCode, EvaluationResult))
    ensures
        (out.0, out.1.value(), out.1.error()) == scalar_outcome(family, order, x, report),
        out.0 == StatusCode::Success <==> in_domain(family, order, x) && report.code == 0
            && valid_estimate(report.error),
        out.0 == StatusCode::Success ==> out.1.value() == report.value && out.1.error()
            == report.error,
        !in_domain(family, order, x) || report.code == NATIVE_DOMAIN ==> out.0
            == StatusCode::DomainError,
        out.0 == StatusCode::DomainError ==> out.1.value().bits == 0 && out.1.error().bits == 0,
        out.0 == StatusCode::OverflowError ==> out.1.value().infinite() && out.1.error().infinite(),
        out.0 == StatusCode::UnderflowError ==> out.1.value().bits == 0 && 0 < out.1.error().value()
            <= (Binary64 { bits: SMALLEST_NORMAL_BITS }).value(),
        valid_estimate(out.1.error()),
{
    conclude(check_domain(family, order, x), report)
}

/// Concludes a plain evaluation, which reports no status. `kernel_value` is
/// what the routine named by `scalar_plan` returned; where the plan named
/// none, any value will do.
pub fn scalar(family: FunctionFamily, order: Order, x: Binary64, kernel_value: Binary64) -> (value:
    Binary64)
    ensures
        value == scalar_value(family, order, x, kernel_value),
{
    if check_domain(family, order, x) {
        kernel_value
    } else {
        Binary64::zero()
    }
}

/// Concludes an error-aware evaluation by a routine that the caller named.
/// `report` is what the routine handed back; where `routine_plan` called for
/// no run, any report will do.
pub fn routine_scalar_with_error(
    routine: ScalarRoutine,
    order: Order,
    x: Binary64,
    report: KernelReport,
) -> (out: (StatusCode, EvaluationResult))
    ensures
        (out.0, out.1.value(), out.1.error()) == routine_outcome(routine, order, x, report),
        out.0 == StatusCode::Success <==> routine.admits(order, x) && report.code == 0
            && valid_estimate(report.error),
        out.0 == StatusCode::Success ==> out.1.value() == report.value && out.1.error()
            == report.error,
        !routine.admits(order, x) || report.code == NATIVE_DOMAIN ==> out.0
            == StatusCode::DomainError,
        out.0 == StatusCode::DomainError ==> out.1.value().bits == 0 && out.1.error().bits == 0,
        out.0 == StatusCode::OverflowError ==> out.1.value().infinite() && out.1.error().infinite(),
        out.0 == StatusCode::UnderflowError ==> out.1.value().bits == 0 && 0 < out.1.error().value()
            <= (Binary64 { bits: SMALLEST_NORMAL_BITS }).value(),
        valid_estimate(out.1.error()),
{
    conclude(routine.check_admits(order, x), report)
}

/// Concludes a plain evaluation by a routine that the caller named.
/// `kernel_value` is what the routine returned; where `routine_plan` called
/// for no run, any value will do.
pub fn routine_scalar(
    routine: ScalarRoutine,
    order: Order,
    x: Binary64,
    kernel_value: Binary64,
) -> (value: Binary64)
    ensures
        value == routine_value(routine, order, x, kernel_value),
{
    if routine.check_admits(order, x) {
        kernel_value
    } else {
        Binary64::zero()
    }
}

/// Where the error-aware form succeeds, the plain form fed with the same
/// kernel value returns the same value, bit for bit.
pub proof fn plain_and_error_aware_agree(admitted: bool, report: KernelReport)
    requires
        outcome(admitted, report).0 == StatusCode::Success,
    ensures
        plain_value(admitted, report.value) == outcome(admitted, report).1,
{
}

/// A request that is not admitted ends in a domain error with value and
/// estimate zero, whatever a kernel may have reported; and so does one for
/// which the kernel reports a domain error.
pub proof fn domain_violation_is_domain_error(admitted: bool, report: KernelReport)
    requires
        !admitted || report.code == NATIVE_DOMAIN,
    ensures
        outcome(admitted, report) == (
            StatusCode::DomainError,
            Binary64 { bits: 0 },
            Binary64 { bits: 0 },
        ),
{
}

/// A request outside the domain of its family ends in a domain error with
/// value and estimate zero, whatever a kernel may have reported.
pub proof fn outside_domain_is_domain_error(
    family: FunctionFamily,
    order: Order,
    x: Binary64,
    report: KernelReport,
)
    requires
        !in_domain(family, order, x),
    ensures
        scalar_outcome(family, order, x, report) == (
            StatusCode::DomainError,
            Binary64 { bits: 0 },
            Binary64 { bits: 0 },
        ),
{
}

/// A request on which the named routine cannot be run ends in a domain error
/// with value and estimate zero, whatever a kernel may have reported.
pub proof fn not_admitted_is_domain_error(
    routine: ScalarRoutine,
    order: Order,
    x: Binary64,
    report: KernelReport,
)
    requires
        !routine.admits(order, x),
    ensures
        routine_outcome(routine, order, x, report) == (
            StatusCode::DomainError,
            Binary64 { bits: 0 },
            Binary64 { bits: 0 },
        ),
{
}

/// The estimate that an error-aware evaluation ends with is always a bound:
/// a number that is not negative.
pub proof fn outcome_estimate_is_valid(admitted: bool, report: KernelReport)
    ensures
        valid_estimate(outcome(admitted, report).2),
{
    lemma_magnitude_zero(Binary64 { bits: 0 });
    lemma_magnitude_zero(Binary64 { bits: INFINITY_BITS });
    lemma_magnitude_zero(Binary64 { bits: SMALLEST_NORMAL_BITS });
}

/// Status, value and estimate hang together as the edge cases demand: a
/// domain error comes with value and estimate zero, an overflow with an
/// infinite value, an underflow with value zero and an estimate that is above
/// zero and no larger than the smallest positive normal number.
pub proof fn outcome_follows_edge_case_policy(admitted: bool, report: KernelReport)
    ensures
        ({
            let (status, value, error) = outcome(admitted, report);
            &&& status == StatusCode::DomainError ==> value.bits == 0 && error.bits == 0
            &&& status == StatusCode::OverflowError ==> value.infinite() && value.sign_negative()
                == report.value.sign_negative()
            &&& status == StatusCode::UnderflowError ==> value.bits == 0 && 0 < error.value()
                <= (Binary64 { bits: SMALLEST_NORMAL_BITS }).value()
        }),
{
    lemma_magnitude_zero(Binary64 { bits: INFINITY_BITS });
    lemma_magnitude_zero(Binary64 { bits: SMALLEST_NORMAL_BITS });
}

/// An evaluation succeeds exactly when the request was admitted, the kernel
/// reports success and its estimate is a bound.
pub proof fn success_is_owed(admitted: bool, report: KernelReport)
    ensures
        outcome(admitted, report).0 == StatusCode::Success <==> admitted && report.code == 0
            && valid_estimate(report.error),
{
}

/// The regular spherical functions of order zero, one and two are evaluated
/// at negative arguments too: such a request is planned for the routine with
/// the order built in, and a success of the kernel is handed on.
pub proof fn closed_forms_take_negative_arguments(l: i32, x: Binary64, report: KernelReport)
    requires
        0 <= l <= 2,
        x.finite(),
        report.code == 0,
        valid_estimate(report.error),
    ensures
        in_domain(FunctionFamily::SphericalRegular, Order::Integer(l), x),
        selected(FunctionFamily::SphericalRegular, Order::Integer(l)) matches Some(routine)
            && routine.built_in_order() == Some(l as int),
        scalar_outcome(FunctionFamily::SphericalRegular, Order::Integer(l), x, report) == (
            StatusCode::Success,
            report.value,
            report.error,
        ),
{
}

} // verus!
