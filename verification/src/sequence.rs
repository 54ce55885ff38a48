//! Evaluation of J_nu at a sequence of arguments.
//!
//! The kernel overwrites a buffer of arguments with the values at them, and
//! uses each evaluation to start the next. For that the arguments have to be
//! positive and strictly increasing; a kernel that is handed anything else
//! returns wrong numbers without a word. The sequence is therefore checked
//! here, before a kernel sees it.

use vstd::prelude::*;
use crate::binary64::Binary64;
use crate::family::{in_domain, FunctionFamily, Order};
use crate::status::{classify, Mode, StatusCode};

verus! {

/// What the sequence kernel is handed beside the order and the buffer.
#[derive(Clone, Copy, Debug, PartialEq, Eq, Structural)]
pub struct SequenceCall {
    /// The word for the precision mode.
    pub mode_word: u32,
    /// The number of arguments in the buffer.
    pub size: usize,
}

/// A finite number greater than zero.
pub open spec fn positive_finite(x: Binary64) -> bool {
    x.finite() && x.value() > 0
}

/// Every argument is finite and greater than zero, and each is less than all
/// that follow it.
pub open spec fn ascending_positive(abscissas: Seq<Binary64>) -> bool {
    &&& forall|i: int| 0 <= i < abscissas.len() ==> positive_finite(#[trigger] abscissas[i])
    &&& forall|i: int, j: int|
        0 <= i < j < abscissas.len() ==> (#[trigger] abscissas[i]).value() < (
        #[trigger] abscissas[j]).value()
}

/// Whether a sequence evaluation is in the domain: the order is finite and
/// the arguments are positive and strictly increasing.
pub open spec fn sequence_domain(nu: Binary64, abscissas: Seq<Binary64>) -> bool {
    nu.finite() && ascending_positive(abscissas)
}

/// The status that a sequence evaluation ends with: a domain error outside
/// the domain, else what the kernel's code stands for.
pub open spec fn sequence_outcome(nu: Binary64, abscissas: Seq<Binary64>, code: int) -> StatusCode {
    if sequence_domain(nu, abscissas) {
        classify(code)
    } else {
        StatusCode::DomainError
    }
}

/// Decides whether the arguments are positive, finite and strictly
/// increasing.
pub fn check_ascending_positive(abscissas: &[Binary64]) -> (ok: bool)
    ensures
        ok == ascending_positive(abscissas@),
{
    let n: usize = abscissas.len();
    let mut k: usize = 0;
    while k < n
        invariant
            n == abscissas@.len(),
            k <= n,
            ascending_positive(abscissas@.take(k as int)),
        decreases n - k,
    {
        let x: Binary64 = abscissas[k];
        let ghost seen = abscissas@.take(k as int);
        let ghost next = abscissas@.take(k + 1);
        if !(x.is_finite() && x.is_positive()) {
            assert(!positive_finite(abscissas@[k as int]));
            return false;
        }
        if k > 0 && !abscissas[k - 1].lt(x) {
            assert(positive_finite(seen[k - 1]) && seen[k - 1] == abscissas@[k - 1]);
            assert(!(abscissas@[k - 1].value() < abscissas@[k as int].value()));
            return false;
        }
        assert(ascending_positive(next)) by {
            assert forall|i: int| 0 <= i < next.len() implies positive_finite(
                #[trigger] next[i],
            ) by {
                if i < k {
                    assert(next[i] == seen[i]);
                }
            }
            assert forall|i: int, j: int| 0 <= i < j < next.len() implies (#[trigger] next[i]).value()
                < (#[trigger] next[j]).value() by {
                if j < k {
                    assert(next[i] == seen[i] && next[j] == seen[j]);
                } else if i < k - 1 {
                    assert(next[i] == seen[i] && next[k - 1] == seen[k - 1]);
                }
            }
        }
        k = k + 1;
    }
    assert(abscissas@.take(n as int) == abscissas@);
    true
}

/// Decides whether to run the kernel on a buffer of arguments: the answer is
/// what to hand the kernel beside the order and the buffer, or nothing where
/// the order is not finite or the arguments are not positive and strictly
/// increasing. The size handed over is the length of the buffer, so that the
/// kernel is never told of a slot that is not there.
pub fn sequence_plan(nu: Binary64, mode: Mode, abscissas: &[Binary64]) -> (planned: Option<
    SequenceCall,
>)
    ensures
        sequence_domain(nu, abscissas@) ==> planned == Some(
            SequenceCall { mode_word: mode.word() as u32, size: abscissas@.len() as usize },
        ),
        !sequence_domain(nu, abscissas@) ==> planned is None,
{
    if nu.is_finite() && check_ascending_positive(abscissas) {
        Some(SequenceCall { mode_word: mode.to_word(), size: abscissas.len() })
    } else {
        None
    }
}

/// Concludes a sequence evaluation. `abscissas` are the arguments as they
/// were before the kernel overwrote them, and `code` is what the kernel
/// reported; where `sequence_plan` called for no run, any code will do.
pub fn sequence(nu: Binary64, abscissas: &[Binary64], code: i32) -> (status: StatusCode)
    ensures
        status == sequence_outcome(nu, abscissas@, code as int),
        !sequence_domain(nu, abscissas@) ==> status == StatusCode::DomainError,
        status == StatusCode::Success <==> sequence_domain(nu, abscissas@) && code == 0,
{
    if nu.is_finite() && check_ascending_positive(abscissas) {
        StatusCode::from_native(code)
    } else {
        StatusCode::DomainError
    }
}

/// Every argument of a sequence in the domain is, taken alone with the same
/// order, in the domain of the regular cylindrical functions of fractional
/// order.
pub proof fn sequence_elements_are_in_scalar_domain(
    nu: Binary64,
    abscissas: Seq<Binary64>,
    i: int,
)
    requires
        sequence_domain(nu, abscissas),
        0 <= i < abscissas.len(),
    ensures
        in_domain(FunctionFamily::FractionalCylindricalRegular, Order::Fractional(nu), abscissas[i]),
{
    assert(positive_finite(abscissas[i]));
}

/// A sequence that repeats an argument or steps down is outside the domain.
pub proof fn unordered_sequence_is_outside(nu: Binary64, abscissas: Seq<Binary64>, i: int)
    requires
        0 <= i,
        i + 1 < abscissas.len(),
        abscissas[i].value() >= abscissas[i + 1].value(),
    ensures
        !sequence_domain(nu, abscissas),
{
    if ascending_positive(abscissas) {
        assert(abscissas[i].value() < abscissas[i + 1].value());
    }
}

} // verus!
