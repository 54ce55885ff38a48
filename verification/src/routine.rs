//! The kernel routines and the choice among them.
//!
//! A kernel offers one routine per function and, for the lowest orders,
//! routines that have the order built in. A request is served by the most
//! special routine that fits it.

use vstd::prelude::*;
use crate::binary64::Binary64;
use crate::family::{in_domain, modified_fractional_domain, FunctionFamily, Order};

verus! {

/// A kernel routine that computes one value.
#[derive(Clone, Copy, Debug, PartialEq, Eq, Structural)]
pub enum ScalarRoutine {
    /// J_0(x)
    BesselJ0,
    /// J_1(x)
    BesselJ1,
    /// J_n(x)
    BesselJn,
    /// I_0(x)
    BesselI0,
    /// I_1(x)
    BesselI1,
    /// I_n(x)
    BesselIn,
    /// exp(-|x|) I_0(x)
    BesselI0Scaled,
    /// exp(-|x|) I_1(x)
    BesselI1Scaled,
    /// exp(-|x|) I_n(x)
    BesselInScaled,
    /// J_nu(x)
    BesselJnu,
    /// I_nu(x)
    BesselInu,
    /// exp(-|x|) I_nu(x)
    BesselInuScaled,
    /// j_0(x)
    SphericalJ0,
    /// j_1(x)
    SphericalJ1,
    /// j_2(x)
    SphericalJ2,
    /// j_l(x)
    SphericalJl,
    /// exp(-|x|) i_0(x)
    SphericalI0Scaled,
    /// exp(-|x|) i_1(x)
    SphericalI1Scaled,
    /// exp(-|x|) i_2(x)
    SphericalI2Scaled,
    /// exp(-|x|) i_l(x)
    SphericalIlScaled,
}

/// A kernel routine that fills a buffer with the values for a range of orders.
#[derive(Clone, Copy, Debug, PartialEq, Eq, Structural)]
pub enum ArrayRoutine {
    /// J_n(x) for n from a start to an end.
    BesselJnArray,
    /// I_n(x) for n from a start to an end.
    BesselInArray,
    /// exp(-|x|) I_n(x) for n from a start to an end.
    BesselInScaledArray,
    /// j_l(x) for l from zero to an end, by recurrence.
    SphericalJlArray,
    /// j_l(x) for l from zero to an end, by Steed's method.
    SphericalJlSteedArray,
    /// exp(-|x|) i_l(x) for l from zero to an end.
    SphericalIlScaledArray,
}

impl ScalarRoutine {
    /// The family whose function the routine computes.
    pub open spec fn family(self) -> FunctionFamily {
        match self {
            ScalarRoutine::BesselJ0 | ScalarRoutine::BesselJ1 | ScalarRoutine::BesselJn => {
                FunctionFamily::IntegerCylindricalRegular
            },
            ScalarRoutine::BesselI0 | ScalarRoutine::BesselI1 | ScalarRoutine::BesselIn => {
                FunctionFamily::IntegerCylindricalModified
            },
            ScalarRoutine::BesselI0Scaled
            | ScalarRoutine::BesselI1Scaled
            | ScalarRoutine::BesselInScaled
            | ScalarRoutine::BesselInuScaled => FunctionFamily::ScaledCylindricalModified,
            ScalarRoutine::BesselJnu => FunctionFamily::FractionalCylindricalRegular,
            ScalarRoutine::BesselInu => FunctionFamily::FractionalModifiedRegular,
            ScalarRoutine::SphericalJ0
            | ScalarRoutine::SphericalJ1
            | ScalarRoutine::SphericalJ2
            | ScalarRoutine::SphericalJl => FunctionFamily::SphericalRegular,
            ScalarRoutine::SphericalI0Scaled
            | ScalarRoutine::SphericalI1Scaled
            | ScalarRoutine::SphericalI2Scaled
            | ScalarRoutine::SphericalIlScaled => FunctionFamily::ScaledSphericalModified,
        }
    }

    /// The order that the routine has built in, if it has one.
    pub open spec fn built_in_order(self) -> Option<int> {
        match self {
            ScalarRoutine::BesselJ0
            | ScalarRoutine::BesselI0
            | ScalarRoutine::BesselI0Scaled
            | ScalarRoutine::SphericalJ0
            | ScalarRoutine::SphericalI0Scaled => Some(0),
            ScalarRoutine::BesselJ1
            | ScalarRoutine::BesselI1
            | ScalarRoutine::BesselI1Scaled
            | ScalarRoutine::SphericalJ1
            | ScalarRoutine::SphericalI1Scaled => Some(1),
            ScalarRoutine::SphericalJ2 | ScalarRoutine::SphericalI2Scaled => Some(2),
            _ => None,
        }
    }

    /// Whether the routine takes its order as a double.
    pub open spec fn takes_fractional_order(self) -> bool {
        self == ScalarRoutine::BesselJnu || self == ScalarRoutine::BesselInu || self
            == ScalarRoutine::BesselInuScaled
    }

    /// Whether the routine computes the function of `family` at `order`: it
    /// belongs to the family, takes orders of that shape, and has either no
    /// order built in or this one.
    pub open spec fn serves(self, family: FunctionFamily, order: Order) -> bool {
        &&& self.family() == family
        &&& match order {
            Order::Integer(n) => {
                &&& !self.takes_fractional_order()
                &&& (self.built_in_order() matches Some(k) ==> k == n)
            },
            Order::Fractional(_) => self.takes_fractional_order(),
        }
    }
}

impl ScalarRoutine {
    /// Whether the routine can be run at `order` and `x`.
    ///
    /// A routine takes orders of its own shape, one with an order built in
    /// that order alone, and finite arguments. The general spherical routines
    /// need an order of zero or more. The general regular spherical routine
    /// needs an argument of zero or more as well, at every order: a caller
    /// who wants order zero, one or two at a negative argument asks for the
    /// routine that has the order built in. The routines of fractional order
    /// need a finite order, the modified ones order and argument greater
    /// than zero.
    pub open spec fn admits(self, order: Order, x: Binary64) -> bool {
        &&& self.serves(self.family(), order)
        &&& x.finite()
        &&& match self {
            ScalarRoutine::SphericalJl => order matches Order::Integer(l) && l >= 0 && x.value()
                >= 0,
            ScalarRoutine::SphericalIlScaled => order matches Order::Integer(l) && l >= 0,
            ScalarRoutine::BesselJnu => order matches Order::Fractional(nu) && nu.finite(),
            ScalarRoutine::BesselInu | ScalarRoutine::BesselInuScaled => order matches Order::Fractional(
                nu,
            ) && modified_fractional_domain(nu, x),
            _ => true,
        }
    }

    fn built_in(self) -> (order: Option<i32>)
        ensures
            order is Some == self.built_in_order() is Some,
            order matches Some(k) ==> self.built_in_order() == Some(k as int),
    {
        match self {
            ScalarRoutine::BesselJ0
            | ScalarRoutine::BesselI0
            | ScalarRoutine::BesselI0Scaled
            | ScalarRoutine::SphericalJ0
            | ScalarRoutine::SphericalI0Scaled => Some(0),
            ScalarRoutine::BesselJ1
            | ScalarRoutine::BesselI1
            | ScalarRoutine::BesselI1Scaled
            | ScalarRoutine::SphericalJ1
            | ScalarRoutine::SphericalI1Scaled => Some(1),
            ScalarRoutine::SphericalJ2 | ScalarRoutine::SphericalI2Scaled => Some(2),
            _ => None,
        }
    }

    /// Decides whether the routine can be run at `order` and `x`.
    pub fn check_admits(self, order: Order, x: Binary64) -> (ok: bool)
        ensures
            ok == self.admits(order, x),
    {
        if !x.is_finite() {
            return false;
        }
        match order {
            Order::Integer(n) => match self {
                ScalarRoutine::BesselJnu
                | ScalarRoutine::BesselInu
                | ScalarRoutine::BesselInuScaled => false,
                ScalarRoutine::SphericalJl => n >= 0 && x.is_non_negative(),
                ScalarRoutine::SphericalIlScaled => n >= 0,
                _ => match self.built_in() {
                    Some(k) => k == n,
                    None => true,
                },
            },
            Order::Fractional(nu) => match self {
                ScalarRoutine::BesselJnu => nu.is_finite(),
                ScalarRoutine::BesselInu | ScalarRoutine::BesselInuScaled => nu.is_finite()
                    && nu.is_positive() && x.is_positive(),
                _ => false,
            },
        }
    }
}

/// The routine for a request: the one with the order built in where the kernel
/// has it, the general one of the family otherwise, none where the family does
/// not take orders of this shape.
pub open spec fn selected(family: FunctionFamily, order: Order) -> Option<ScalarRoutine> {
    match order {
        Order::Integer(n) => match family {
            FunctionFamily::IntegerCylindricalRegular => Some(
                if n == 0 {
                    ScalarRoutine::BesselJ0
                } else if n == 1 {
                    ScalarRoutine::BesselJ1
                } else {
                    ScalarRoutine::BesselJn
                },
            ),
            FunctionFamily::IntegerCylindricalModified => Some(
                if n == 0 {
                    ScalarRoutine::BesselI0
                } else if n == 1 {
                    ScalarRoutine::BesselI1
                } else {
                    ScalarRoutine::BesselIn
                },
            ),
            FunctionFamily::ScaledCylindricalModified => Some(
                if n == 0 {
                    ScalarRoutine::BesselI0Scaled
                } else if n == 1 {
                    ScalarRoutine::BesselI1Scaled
                } else {
                    ScalarRoutine::BesselInScaled
                },
            ),
            FunctionFamily::SphericalRegular => Some(
                if n == 0 {
                    ScalarRoutine::SphericalJ0
                } else if n == 1 {
                    ScalarRoutine::SphericalJ1
                } else if n == 2 {
                    ScalarRoutine::SphericalJ2
                } else {
                    ScalarRoutine::SphericalJl
                },
            ),
            FunctionFamily::ScaledSphericalModified => Some(
                if n == 0 {
                    ScalarRoutine::SphericalI0Scaled
                } else if n == 1 {
                    ScalarRoutine::SphericalI1Scaled
                } else if n == 2 {
                    ScalarRoutine::SphericalI2Scaled
                } else {
                    ScalarRoutine::SphericalIlScaled
                },
            ),
            _ => None,
        },
        Order::Fractional(_) => match family {
            FunctionFamily::FractionalCylindricalRegular => Some(ScalarRoutine::BesselJnu),
            FunctionFamily::FractionalModifiedRegular => Some(ScalarRoutine::BesselInu),
            FunctionFamily::ScaledCylindricalModified => Some(ScalarRoutine::BesselInuScaled),
            _ => None,
        },
    }
}

fn low_order_routine(
    n: i32,
    zero: ScalarRoutine,
    one: ScalarRoutine,
    two: ScalarRoutine,
    any: ScalarRoutine,
) -> (routine: ScalarRoutine)
    ensures
        routine == if n == 0 {
            zero
        } else if n == 1 {
            one
        } else if n == 2 {
            two
        } else {
            any
        },
{
    if n == 0 {
        zero
    } else if n == 1 {
        one
    } else if n == 2 {
        two
    } else {
        any
    }
}

/// Chooses the routine that serves `family` at `order`.
pub fn select(family: FunctionFamily, order: Order) -> (routine: Option<ScalarRoutine>)
    ensures
        routine == selected(family, order),
{
    match order {
        Order::Integer(n) => match family {
            FunctionFamily::IntegerCylindricalRegular => Some(
                low_order_routine(
                    n,
                    ScalarRoutine::BesselJ0,
                    ScalarRoutine::BesselJ1,
                    ScalarRoutine::BesselJn,
                    ScalarRoutine::BesselJn,
                ),
            ),
            FunctionFamily::IntegerCylindricalModified => Some(
                low_order_routine(
                    n,
                    ScalarRoutine::BesselI0,
                    ScalarRoutine::BesselI1,
                    ScalarRoutine::BesselIn,
                    ScalarRoutine::BesselIn,
                ),
            ),
            FunctionFamily::ScaledCylindricalModified => Some(
                low_order_routine(
                    n,
                    ScalarRoutine::BesselI0Scaled,
                    ScalarRoutine::BesselI1Scaled,
                    ScalarRoutine::BesselInScaled,
                    ScalarRoutine::BesselInScaled,
                ),
            ),
            FunctionFamily::SphericalRegular => Some(
                low_order_routine(
                    n,
                    ScalarRoutine::SphericalJ0,
                    ScalarRoutine::SphericalJ1,
                    ScalarRoutine::SphericalJ2,
                    ScalarRoutine::SphericalJl,
                ),
            ),
            FunctionFamily::ScaledSphericalModified => Some(
                low_order_routine(
                    n,
                    ScalarRoutine::SphericalI0Scaled,
                    ScalarRoutine::SphericalI1Scaled,
                    ScalarRoutine::SphericalI2Scaled,
                    ScalarRoutine::SphericalIlScaled,
                ),
            ),
            _ => None,
        },
        Order::Fractional(_) => match family {
            FunctionFamily::FractionalCylindricalRegular => Some(ScalarRoutine::BesselJnu),
            FunctionFamily::FractionalModifiedRegular => Some(ScalarRoutine::BesselInu),
            FunctionFamily::ScaledCylindricalModified => Some(ScalarRoutine::BesselInuScaled),
            _ => None,
        },
    }
}

/// The selected routine serves the request, and no routine with an order
/// built in is passed over: whatever else serves the request is the selected
/// routine itself or the general routine of the family.
pub proof fn selection_is_sound_and_most_special(
    family: FunctionFamily,
    order: Order,
    other: ScalarRoutine,
)
    ensures
        selected(family, order) matches Some(routine) ==> routine.serves(family, order),
        other.serves(family, order) ==> selected(family, order) is Some,
        other.serves(family, order) && other.built_in_order() is Some ==> selected(family, order)
            == Some(other),
{
}

/// A request lies in the domain of its family exactly when the routine
/// selected for it can be run on it.
pub proof fn domain_is_what_the_selected_routine_admits(
    family: FunctionFamily,
    order: Order,
    x: Binary64,
)
    ensures
        in_domain(family, order, x) <==> (selected(family, order) matches Some(routine)
            && routine.admits(order, x)),
{
}

/// Whatever a routine can be run on lies in the domain of the routine's
/// family: asking for a routine by name never widens a domain.
pub proof fn admitted_by_routine_is_in_domain(routine: ScalarRoutine, order: Order, x: Binary64)
    requires
        routine.admits(order, x),
    ensures
        in_domain(routine.family(), order, x),
{
}

/// A request inside the domain of its family always has a routine.
pub proof fn domain_has_routine(family: FunctionFamily, order: Order, x: Binary64)
    requires
        in_domain(family, order, x),
    ensures
        selected(family, order) is Some,
{
}

} // verus!
