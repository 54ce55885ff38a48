//! The function families, the orders they take and their domains.

use vstd::prelude::*;
use crate::binary64::Binary64;

verus! {

/// Which Bessel function is meant.
#[derive(Clone, Copy, Debug, PartialEq, Eq, Structural)]
pub enum FunctionFamily {
    /// J_n: regular cylindrical, integer order.
    IntegerCylindricalRegular,
    /// I_n: regular modified cylindrical, integer order.
    IntegerCylindricalModified,
    /// J_nu: regular cylindrical, fractional order.
    FractionalCylindricalRegular,
    /// I_nu: regular modified cylindrical, fractional order.
    FractionalModifiedRegular,
    /// j_l: regular spherical.
    SphericalRegular,
    /// exp(-|x|) i_l: regular modified spherical, scaled.
    ScaledSphericalModified,
    /// exp(-|x|) I: regular modified cylindrical, scaled, of integer or of
    /// fractional order.
    ScaledCylindricalModified,
}

/// The order of a function: an integer, or a double for the fractional forms.
#[derive(Clone, Copy, Debug, PartialEq, Eq, Structural)]
pub enum Order {
    Integer(i32),
    Fractional(Binary64),
}

impl FunctionFamily {
    /// The cylindrical families of integer order: those that can be
    /// evaluated over a range of orders that starts anywhere from zero up.
    pub open spec fn cylindrical_integer(self) -> bool {
        self == FunctionFamily::IntegerCylindricalRegular
            || self == FunctionFamily::IntegerCylindricalModified
            || self == FunctionFamily::ScaledCylindricalModified
    }

    /// The spherical families, whose order ranges start at zero.
    pub open spec fn spherical(self) -> bool {
        self == FunctionFamily::SphericalRegular || self == FunctionFamily::ScaledSphericalModified
    }

    /// Whether this is one of the cylindrical families of integer order.
    pub fn is_cylindrical_integer(self) -> (yes: bool)
        ensures
            yes == self.cylindrical_integer(),
    {
        match self {
            FunctionFamily::IntegerCylindricalRegular => true,
            FunctionFamily::IntegerCylindricalModified => true,
            FunctionFamily::ScaledCylindricalModified => true,
            _ => false,
        }
    }

    /// Whether this is one of the spherical families.
    pub fn is_spherical(self) -> (yes: bool)
        ensures
            yes == self.spherical(),
    {
        match self {
            FunctionFamily::SphericalRegular => true,
            FunctionFamily::ScaledSphericalModified => true,
            _ => false,
        }
    }
}

/// A fractional order and an argument at which the modified functions of
/// fractional order are defined: both finite, both greater than zero.
pub open spec fn modified_fractional_domain(nu: Binary64, x: Binary64) -> bool {
    nu.finite() && nu.value() > 0 && x.finite() && x.value() > 0
}

/// Whether `order` and `x` lie in the domain of `family`.
///
/// The argument is finite throughout. A family takes orders of its own shape
/// only. The spherical families need an order of zero or more. The regular
/// spherical functions of order zero, one and two are given in closed form
/// and take any finite argument; from order three on they need an argument of
/// zero or more. The modified functions of fractional order need order and
/// argument greater than zero. A fractional order is always finite.
pub open spec fn in_domain(family: FunctionFamily, order: Order, x: Binary64) -> bool {
    match family {
        FunctionFamily::IntegerCylindricalRegular | FunctionFamily::IntegerCylindricalModified => {
            order is Integer && x.finite()
        },
        FunctionFamily::ScaledCylindricalModified => match order {
            Order::Integer(_) => x.finite(),
            Order::Fractional(nu) => modified_fractional_domain(nu, x),
        },
        FunctionFamily::FractionalCylindricalRegular => match order {
            Order::Integer(_) => false,
            Order::Fractional(nu) => nu.finite() && x.finite(),
        },
        FunctionFamily::FractionalModifiedRegular => match order {
            Order::Integer(_) => false,
            Order::Fractional(nu) => modified_fractional_domain(nu, x),
        },
        FunctionFamily::SphericalRegular => match order {
            Order::Integer(l) => l >= 0 && x.finite() && (l <= 2 || x.value() >= 0),
            Order::Fractional(_) => false,
        },
        FunctionFamily::ScaledSphericalModified => match order {
            Order::Integer(l) => l >= 0 && x.finite(),
            Order::Fractional(_) => false,
        },
    }
}

fn check_modified_fractional(nu: Binary64, x: Binary64) -> (ok: bool)
    ensures
        ok == modified_fractional_domain(nu, x),
{
    nu.is_finite() && nu.is_positive() && x.is_finite() && x.is_positive()
}

/// Decides whether `order` and `x` lie in the domain of `family`.
pub fn check_domain(family: FunctionFamily, order: Order, x: Binary64) -> (ok: bool)
    ensures
        ok == in_domain(family, order, x),
{
    match family {
        FunctionFamily::IntegerCylindricalRegular | FunctionFamily::IntegerCylindricalModified => {
            match order {
                Order::Integer(_) => x.is_finite(),
                Order::Fractional(_) => false,
            }
        },
        FunctionFamily::ScaledCylindricalModified => match order {
            Order::Integer(_) => x.is_finite(),
            Order::Fractional(nu) => check_modified_fractional(nu, x),
        },
        FunctionFamily::FractionalCylindricalRegular => match order {
            Order::Integer(_) => false,
            Order::Fractional(nu) => nu.is_finite() && x.is_finite(),
        },
        FunctionFamily::FractionalModifiedRegular => match order {
            Order::Integer(_) => false,
            Order::Fractional(nu) => check_modified_fractional(nu, x),
        },
        FunctionFamily::SphericalRegular => match order {
            Order::Integer(l) => l >= 0 && x.is_finite() && (l <= 2 || x.is_non_negative()),
            Order::Fractional(_) => false,
        },
        FunctionFamily::ScaledSphericalModified => match order {
            Order::Integer(l) => l >= 0 && x.is_finite(),
            Order::Fractional(_) => false,
        },
    }
}

/// A negative order is outside the domain of both spherical families,
/// whatever the argument.
pub proof fn negative_spherical_order_is_outside(family: FunctionFamily, l: i32, x: Binary64)
    requires
        family.spherical(),
        l < 0,
    ensures
        !in_domain(family, Order::Integer(l), x),
{
}

/// An argument that is not finite is outside every domain.
pub proof fn non_finite_argument_is_outside(family: FunctionFamily, order: Order, x: Binary64)
    requires
        !x.finite(),
    ensures
        !in_domain(family, order, x),
{
}

} // verus!
