//! Handles, coordinates and the checks that every kind of geometry shares.

use crate::scalar::{Scalar, LOOSE_BITS, TINY_BITS};
use crate::text::{check, decimal, fault, first, join, join3, number, unless, Fault};
use vstd::prelude::*;
use vstd::string::*;

verus! {

/// The identity of a record in a drawing. Zero is the null handle.
#[derive(Clone, Copy, PartialEq, Eq, Structural, Debug)]
pub struct Handle {
    pub value: u64,
}

impl Handle {
    pub open spec fn null(self) -> bool {
        self.value == 0
    }

    #[verifier::when_used_as_spec(null)]
    pub fn is_null(self) -> (result: bool)
        ensures
            result == self.null(),
    {
        self.value == 0
    }

    /// The handle as messages show it.
    pub open spec fn shown(self) -> Seq<char> {
        "Handle("@ + decimal(self.value as nat) + ")"@
    }

    pub fn show(self) -> (result: String)
        ensures
            result@ == self.shown(),
    {
        join3("Handle(", &number(self.value), ")")
    }
}

/// A reference that may be absent: a null handle counts as none.
pub open spec fn target(reference: Option<Handle>) -> Option<Handle> {
    match reference {
        Some(handle) => if handle.null() {
            None
        } else {
            Some(handle)
        },
        None => None,
    }
}

pub fn target_of(reference: Option<Handle>) -> (result: Option<Handle>)
    ensures
        result == target(reference),
{
    match reference {
        Some(handle) => if handle.is_null() {
            None
        } else {
            Some(handle)
        },
        None => None,
    }
}

/// A point or an offset in a plane.
#[derive(Clone, Copy, PartialEq, Eq, Structural, Debug)]
pub struct Vector2 {
    pub x: Scalar,
    pub y: Scalar,
}

impl Vector2 {
    pub open spec fn finite(self) -> bool {
        self.x.finite() && self.y.finite()
    }

    #[verifier::when_used_as_spec(finite)]
    pub fn is_finite(self) -> (result: bool)
        ensures
            result == self.finite(),
    {
        self.x.is_finite() && self.y.is_finite()
    }

    /// Each coordinate was left alone.
    pub open spec fn same(self, other: Vector2) -> bool {
        self.x.same(other.x) && self.y.same(other.y)
    }

    #[verifier::when_used_as_spec(same)]
    pub fn unchanged(self, other: Vector2) -> (result: bool)
        ensures
            result == self.same(other),
    {
        self.x.unchanged(other.x) && self.y.unchanged(other.y)
    }
}

/// A point or a direction in space. `length` is the distance from the origin
/// as the geometry engine rounded it; the coordinates alone are the identity.
#[derive(Clone, Copy, PartialEq, Eq, Structural, Debug)]
pub struct Vector3 {
    pub x: Scalar,
    pub y: Scalar,
    pub z: Scalar,
    pub length: Scalar,
}

impl Vector3 {
    pub open spec fn finite(self) -> bool {
        self.x.finite() && self.y.finite() && self.z.finite()
    }

    #[verifier::when_used_as_spec(finite)]
    pub fn is_finite(self) -> (result: bool)
        ensures
            result == self.finite(),
    {
        self.x.is_finite() && self.y.is_finite() && self.z.is_finite()
    }

    /// The same coordinates bit for bit.
    pub open spec fn identical(self, other: Vector3) -> bool {
        self.x == other.x && self.y == other.y && self.z == other.z
    }

    #[verifier::when_used_as_spec(identical)]
    pub fn is_identical(self, other: Vector3) -> (result: bool)
        ensures
            result == self.identical(other),
    {
        self.x == other.x && self.y == other.y && self.z == other.z
    }

    /// Each coordinate was left alone.
    pub open spec fn same(self, other: Vector3) -> bool {
        self.x.same(other.x) && self.y.same(other.y) && self.z.same(other.z)
    }

    #[verifier::when_used_as_spec(same)]
    pub fn unchanged(self, other: Vector3) -> (result: bool)
        ensures
            result == self.same(other),
    {
        self.x.unchanged(other.x) && self.y.unchanged(other.y) && self.z.unchanged(other.z)
    }

    /// The same point: each coordinate is equal as a number.
    pub open spec fn coincident(self, other: Vector3) -> bool {
        self.x.equal(other.x) && self.y.equal(other.y) && self.z.equal(other.z)
    }

    #[verifier::when_used_as_spec(coincident)]
    pub fn coincides(self, other: Vector3) -> (result: bool)
        ensures
            result == self.coincident(other),
    {
        self.x.equals(other.x) && self.y.equals(other.y) && self.z.equals(other.z)
    }
}

/// A complaint that only counts where `applies` holds.
pub open spec fn provided(applies: bool, complaint: Fault) -> Fault {
    if applies {
        complaint
    } else {
        None
    }
}

/// The coordinates must be finite.
pub open spec fn finite_fault(name: Seq<char>, value: Vector3) -> Fault {
    unless(value.finite(), name + " must contain finite coordinates"@)
}

/// The vector must be a direction of length one, give or take `1e-6`.
pub open spec fn unit_fault(name: Seq<char>, value: Vector3) -> Fault {
    first(
        finite_fault(name, value),
        unless(
            value.length.around_one(Scalar { bits: LOOSE_BITS }),
            name + " must be a unit vector"@,
        ),
    )
}

/// The vector must point somewhere.
pub open spec fn normal_fault(name: Seq<char>, value: Vector3) -> Fault {
    first(
        finite_fault(name, value),
        unless(value.length.positive(), name + " must be nonzero"@),
    )
}

/// Finite, and at least `1e-12` away from zero.
pub open spec fn nonzero(value: Scalar) -> bool {
    value.finite() && !value.absolute().below(Scalar { bits: TINY_BITS })
}

/// The factor must not collapse what it scales.
pub open spec fn scale_fault(name: Seq<char>, value: Scalar) -> Fault {
    unless(nonzero(value), name + " must be finite and nonzero"@)
}

/// Finite and above zero.
pub open spec fn proper(value: Scalar) -> bool {
    value.finite() && value.positive()
}

#[verifier::when_used_as_spec(proper)]
pub fn is_proper(value: Scalar) -> (result: bool)
    ensures
        result == proper(value),
{
    value.is_finite() && value.is_positive()
}

/// The size must be finite and above zero.
pub open spec fn size_fault(name: Seq<char>, value: Scalar) -> Fault {
    unless(proper(value), name + " must be finite and greater than zero"@)
}

/// Finite and not below zero.
pub open spec fn non_negative(value: Scalar) -> bool {
    value.finite() && !value.below(Scalar { bits: 0 })
}

#[verifier::when_used_as_spec(non_negative)]
pub fn is_non_negative(value: Scalar) -> (result: bool)
    ensures
        result == non_negative(value),
{
    value.is_finite() && !value.lt(Scalar { bits: 0 })
}

#[verifier::when_used_as_spec(nonzero)]
pub fn is_nonzero(value: Scalar) -> (result: bool)
    ensures
        result == nonzero(value),
{
    value.is_finite() && !value.abs().lt(Scalar { bits: TINY_BITS })
}

pub fn finite_vector(name: &str, value: &Vector3) -> (result: Result<(), String>)
    ensures
        fault(result) == finite_fault(name@, *value),
{
    check(value.is_finite(), &join(name, " must contain finite coordinates"))
}

pub fn unit_direction(name: &str, value: &Vector3) -> (result: Result<(), String>)
    ensures
        fault(result) == unit_fault(name@, *value),
{
    finite_vector(name, value)?;
    check(value.length.is_unit(), &join(name, " must be a unit vector"))
}

pub fn solid_normal(name: &str, value: &Vector3) -> (result: Result<(), String>)
    ensures
        fault(result) == normal_fault(name@, *value),
{
    finite_vector(name, value)?;
    check(value.length.is_positive(), &join(name, " must be nonzero"))
}

pub fn insert_scale(name: &str, value: Scalar) -> (result: Result<(), String>)
    ensures
        fault(result) == scale_fault(name@, value),
{
    check(is_nonzero(value), &join(name, " must be finite and nonzero"))
}

pub fn positive_size(name: &str, value: Scalar) -> (result: Result<(), String>)
    ensures
        fault(result) == size_fault(name@, value),
{
    check(is_proper(value), &join(name, " must be finite and greater than zero"))
}

} // verus!
