//! Evaluation over a range of orders at one argument.
//!
//! The kernel fills a buffer that the caller owns, one slot per order. Before
//! a kernel runs, the range and the length of the buffer are held against
//! each other: a buffer that does not fit is a fault of the calling code and
//! is reported as such, apart from any status, and before the domain is even
//! looked at.

use vstd::prelude::*;
use crate::binary64::Binary64;
use crate::family::{in_domain, FunctionFamily, Order};
use crate::routine::{ArrayRoutine, ScalarRoutine};
use crate::status::{classify, StatusCode};

verus! {

/// A broken precondition of an array evaluation: a fault of the calling code,
/// not a numerical condition.
#[derive(Clone, Copy, Debug, PartialEq, Eq, Structural)]
pub enum ContractViolation {
    /// The range starts below order zero.
    NegativeStart,
    /// The range ends before it starts.
    ReversedRange,
    /// The buffer does not have one slot per order of the range.
    LengthMismatch,
}

/// The number of orders from `nmin` to `nmax`, both included.
pub open spec fn range_length(nmin: int, nmax: int) -> int {
    nmax - nmin + 1
}

/// What is wrong with a range and a buffer length, if anything. Of several
/// faults the first in this order is named: a negative start, a reversed
/// range, a length that differs from the number of orders.
pub open spec fn range_violation(nmin: int, nmax: int, len: nat) -> Option<ContractViolation> {
    if nmin < 0 {
        Some(ContractViolation::NegativeStart)
    } else if nmin > nmax {
        Some(ContractViolation::ReversedRange)
    } else if len != range_length(nmin, nmax) {
        Some(ContractViolation::LengthMismatch)
    } else {
        None
    }
}

/// The kernel routine that fills a buffer for a cylindrical family of integer
/// order; none for the other families.
pub open spec fn cylindrical_array_routine(family: FunctionFamily) -> Option<ArrayRoutine> {
    match family {
        FunctionFamily::IntegerCylindricalRegular => Some(ArrayRoutine::BesselJnArray),
        FunctionFamily::IntegerCylindricalModified => Some(ArrayRoutine::BesselInArray),
        FunctionFamily::ScaledCylindricalModified => Some(ArrayRoutine::BesselInScaledArray),
        _ => None,
    }
}

/// The kernel routine that fills a buffer for a spherical family by
/// recurrence; none for the other families.
pub open spec fn spherical_array_routine(family: FunctionFamily) -> Option<ArrayRoutine> {
    match family {
        FunctionFamily::SphericalRegular => Some(ArrayRoutine::SphericalJlArray),
        FunctionFamily::ScaledSphericalModified => Some(ArrayRoutine::SphericalIlScaledArray),
        _ => None,
    }
}

/// Whether a cylindrical range evaluation of `family` at `x` is in the
/// domain: the family is cylindrical of integer order and `x` is finite.
pub open spec fn cylindrical_array_domain(family: FunctionFamily, x: Binary64) -> bool {
    family.cylindrical_integer() && x.finite()
}

/// Whether a spherical range evaluation of `family` at `x` is in the domain:
/// the family is spherical and `x` is finite, and not below zero for the
/// regular functions.
pub open spec fn spherical_array_domain(family: FunctionFamily, x: Binary64) -> bool {
    &&& family.spherical()
    &&& x.finite()
    &&& family == FunctionFamily::SphericalRegular ==> x.value() >= 0
}

/// What a range evaluation ends with: the violation where range and buffer
/// do not fit; else a domain error where the request was not `admitted` to
/// the domain; else the status that the kernel's code stands for.
pub open spec fn array_outcome(
    nmin: int,
    nmax: int,
    len: nat,
    admitted: bool,
    code: int,
) -> Result<StatusCode, ContractViolation> {
    match range_violation(nmin, nmax, len) {
        Some(violation) => Err(violation),
        None => Ok(
            if admitted {
                classify(code)
            } else {
                StatusCode::DomainError
            },
        ),
    }
}

/// What to run for a range evaluation: the violation where range and buffer
/// do not fit; else nothing where the request was not `admitted` to the
/// domain; else the routine.
pub open spec fn array_planned(
    nmin: int,
    nmax: int,
    len: nat,
    admitted: bool,
    routine: Option<ArrayRoutine>,
) -> Result<Option<ArrayRoutine>, ContractViolation> {
    match range_violation(nmin, nmax, len) {
        Some(violation) => Err(violation),
        None => Ok(
            if admitted {
                routine
            } else {
                None
            },
        ),
    }
}

/// Holds a range of orders and a buffer length against each other.
pub fn check_range(nmin: i32, nmax: i32, len: usize) -> (violation: Option<ContractViolation>)
    ensures
        violation == range_violation(nmin as int, nmax as int, len as nat),
{
    if nmin < 0 {
        Some(ContractViolation::NegativeStart)
    } else if nmin > nmax {
        Some(ContractViolation::ReversedRange)
    } else {
        let orders: u64 = (nmax as i64 - nmin as i64 + 1) as u64;
        if len as u64 != orders {
            Some(ContractViolation::LengthMismatch)
        } else {
            None
        }
    }
}

fn cylindrical_routine(family: FunctionFamily) -> (routine: Option<ArrayRoutine>)
    ensures
        routine == cylindrical_array_routine(family),
{
    match family {
        FunctionFamily::IntegerCylindricalRegular => Some(ArrayRoutine::BesselJnArray),
        FunctionFamily::IntegerCylindricalModified => Some(ArrayRoutine::BesselInArray),
        FunctionFamily::ScaledCylindricalModified => Some(ArrayRoutine::BesselInScaledArray),
        _ => None,
    }
}

fn spherical_routine(family: FunctionFamily) -> (routine: Option<ArrayRoutine>)
    ensures
        routine == spherical_array_routine(family),
{
    match family {
        FunctionFamily::SphericalRegular => Some(ArrayRoutine::SphericalJlArray),
        FunctionFamily::ScaledSphericalModified => Some(ArrayRoutine::SphericalIlScaledArray),
        _ => None,
    }
}

fn check_cylindrical_domain(family: FunctionFamily, x: Binary64) -> (ok: bool)
    ensures
        ok == cylindrical_array_domain(family, x),
{
    family.is_cylindrical_integer() && x.is_finite()
}

fn check_spherical_domain(family: FunctionFamily, x: Binary64) -> (ok: bool)
    ensures
        ok == spherical_array_domain(family, x),
{
    match family {
        FunctionFamily::SphericalRegular => x.is_finite() && x.is_non_negative(),
        FunctionFamily::ScaledSphericalModified => x.is_finite(),
        _ => false,
    }
}

fn plan(nmin: i32, nmax: i32, len: usize, admitted: bool, routine: Option<ArrayRoutine>) -> (planned:
    Result<Option<ArrayRoutine>, ContractViolation>)
    ensures
        planned == array_planned(nmin as int, nmax as int, len as nat, admitted, routine),
{
    match check_range(nmin, nmax, len) {
        Some(violation) => Err(violation),
        None => if admitted {
            Ok(routine)
        } else {
            Ok(None)
        },
    }
}

fn conclude(nmin: i32, nmax: i32, len: usize, admitted: bool, code: i32) -> (out: Result<
    StatusCode,
    ContractViolation,
>)
    ensures
        out == array_outcome(nmin as int, nmax as int, len as nat, admitted, code as int),
{
    match check_range(nmin, nmax, len) {
        Some(violation) => Err(violation),
        None => if admitted {
            Ok(StatusCode::from_native(code))
        } else {
            Ok(StatusCode::DomainError)
        },
    }
}

/// Decides what to run to fill a buffer of `len` slots with the functions of
/// a cylindrical family for the orders `nmin` to `nmax` at `x`.
///
/// A range or a length that does not fit is an error. Otherwise the answer is
/// the routine to run, or nothing where the family is not cylindrical of
/// integer order or `x` is not finite.
pub fn array_plan(family: FunctionFamily, nmin: i32, nmax: i32, x: Binary64, len: usize) -> (planned:
    Result<Option<ArrayRoutine>, ContractViolation>)
    ensures
        planned == array_planned(
            nmin as int,
            nmax as int,
            len as nat,
            cylindrical_array_domain(family, x),
            cylindrical_array_routine(family),
        ),
        planned is Err <==> range_violation(nmin as int, nmax as int, len as nat) is Some,
        planned matches Ok(Some(_)) <==> range_violation(nmin as int, nmax as int, len as nat)
            is None && cylindrical_array_domain(family, x),
{
    plan(nmin, nmax, len, check_cylindrical_domain(family, x), cylindrical_routine(family))
}

/// Concludes a cylindrical range evaluation. `code` is what the routine named
/// by `array_plan` reported; where the plan named none, any code will do.
pub fn array(
    family: FunctionFamily,
    nmin: i32,
    nmax: i32,
    x: Binary64,
    len: usize,
    code: i32,
) -> (out: Result<StatusCode, ContractViolation>)
    ensures
        out == array_outcome(
            nmin as int,
            nmax as int,
            len as nat,
            cylindrical_array_domain(family, x),
            code as int,
        ),
        len != range_length(nmin as int, nmax as int) ==> out is Err,
        out == Ok::<StatusCode, ContractViolation>(StatusCode::Success) <==> range_violation(
            nmin as int,
            nmax as int,
            len as nat,
        ) is None && cylindrical_array_domain(family, x) && code == 0,
{
    conclude(nmin, nmax, len, check_cylindrical_domain(family, x), code)
}

/// Decides what to run to fill a buffer of `len` slots with the functions of
/// a spherical family for the orders zero to `lmax` at `x`.
///
/// A negative `lmax` is a reversed range. Otherwise as `array_plan`, with the
/// spherical families and their domains.
pub fn scaled_array_plan(family: FunctionFamily, lmax: i32, x: Binary64, len: usize) -> (planned:
    Result<Option<ArrayRoutine>, ContractViolation>)
    ensures
        planned == array_planned(
            0,
            lmax as int,
            len as nat,
            spherical_array_domain(family, x),
            spherical_array_routine(family),
        ),
        planned is Err <==> range_violation(0, lmax as int, len as nat) is Some,
        planned matches Ok(Some(_)) <==> range_violation(0, lmax as int, len as nat) is None
            && spherical_array_domain(family, x),
{
    plan(0, lmax, len, check_spherical_domain(family, x), spherical_routine(family))
}

/// Concludes a spherical range evaluation. `code` is what the routine named
/// by `scaled_array_plan` reported; where the plan named none, any code will
/// do.
pub fn scaled_array(family: FunctionFamily, lmax: i32, x: Binary64, len: usize, code: i32) -> (out:
    Result<StatusCode, ContractViolation>)
    ensures
        out == array_outcome(
            0,
            lmax as int,
            len as nat,
            spherical_array_domain(family, x),
            code as int,
        ),
        len != range_length(0, lmax as int) ==> out is Err,
        out == Ok::<StatusCode, ContractViolation>(StatusCode::Success) <==> range_violation(
            0,
            lmax as int,
            len as nat,
        ) is None && spherical_array_domain(family, x) && code == 0,
{
    conclude(0, lmax, len, check_spherical_domain(family, x), code)
}

/// Decides what to run to fill a buffer of `len` slots with the regular
/// spherical functions for the orders zero to `lmax` at `x` by Steed's
/// method, which is slower than the recurrence and more stable.
pub fn steed_array_plan(lmax: i32, x: Binary64, len: usize) -> (planned: Result<
    Option<ArrayRoutine>,
    ContractViolation,
>)
    ensures
        planned == array_planned(
            0,
            lmax as int,
            len as nat,
            spherical_array_domain(FunctionFamily::SphericalRegular, x),
            Some(ArrayRoutine::SphericalJlSteedArray),
        ),
        planned is Err <==> range_violation(0, lmax as int, len as nat) is Some,
{
    plan(
        0,
        lmax,
        len,
        check_spherical_domain(FunctionFamily::SphericalRegular, x),
        Some(ArrayRoutine::SphericalJlSteedArray),
    )
}

/// Concludes a range evaluation by Steed's method. `code` is what the routine
/// named by `steed_array_plan` reported; where the plan named none, any code
/// will do.
pub fn steed_array(lmax: i32, x: Binary64, len: usize, code: i32) -> (out: Result<
    StatusCode,
    ContractViolation,
>)
    ensures
        out == array_outcome(
            0,
            lmax as int,
            len as nat,
            spherical_array_domain(FunctionFamily::SphericalRegular, x),
            code as int,
        ),
        len != range_length(0, lmax as int) ==> out is Err,
        out == Ok::<StatusCode, ContractViolation>(StatusCode::Success) <==> range_violation(
            0,
            lmax as int,
            len as nat,
        ) is None && x.finite() && x.value() >= 0 && code == 0,
{
    conclude(0, lmax, len, check_spherical_domain(FunctionFamily::SphericalRegular, x), code)
}

/// A buffer whose length differs from the number of orders is a contract
/// violation whatever the family, the argument and the kernel's code, and no
/// routine is planned for it.
pub proof fn length_mismatch_is_a_violation(
    nmin: int,
    nmax: int,
    len: nat,
    admitted: bool,
    routine: Option<ArrayRoutine>,
    code: int,
)
    requires
        len != range_length(nmin, nmax),
    ensures
        array_outcome(nmin, nmax, len, admitted, code) is Err,
        array_planned(nmin, nmax, len, admitted, routine) is Err,
{
}

/// A range evaluation that violates no contract and lies outside the domain
/// ends in a domain error, whatever code is handed in.
pub proof fn array_outside_domain_is_domain_error(nmin: int, nmax: int, len: nat, code: int)
    requires
        range_violation(nmin, nmax, len) is None,
    ensures
        array_outcome(nmin, nmax, len, false, code) == Ok::<StatusCode, ContractViolation>(
            StatusCode::DomainError,
        ),
{
}

/// A range of the single order `n`, with a buffer of one slot, violates no
/// contract, and is in the domain only where the request for order `n` alone
/// is. For the cylindrical families the two domains are the same. For the
/// spherical families the range has the domain of the general routine, which
/// for the regular functions is narrower than that of the closed forms of
/// order zero, one and two.
pub proof fn single_order_range_shares_scalar_domain(family: FunctionFamily, n: int, x: Binary64)
    requires
        0 <= n <= i32::MAX,
    ensures
        range_violation(n, n, 1) is None,
        cylindrical_array_domain(family, x) <==> family.cylindrical_integer() && in_domain(
            family,
            Order::Integer(n as i32),
            x,
        ),
        spherical_array_domain(family, x) ==> family.spherical() && in_domain(
            family,
            Order::Integer(n as i32),
            x,
        ),
        spherical_array_domain(FunctionFamily::SphericalRegular, x)
            <==> ScalarRoutine::SphericalJl.admits(Order::Integer(n as i32), x),
        spherical_array_domain(FunctionFamily::ScaledSphericalModified, x)
            <==> ScalarRoutine::SphericalIlScaled.admits(Order::Integer(n as i32), x),
{
}

} // verus!
