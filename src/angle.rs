use vstd::prelude::*;
use std::cmp::Ordering;
use crate::calc::Calc;
use crate::magnitude::{
    float_eq, float_partial_cmp, is_zero_bits, spec_float_eq, spec_float_partial_cmp,
    spec_is_zero,
};
use crate::unit::{unit_name, unit_named, AngleUnit};

verus! {

/// A CSS angle: a binary32 magnitude (held as its bit pattern) in one of the
/// four units, or a `calc()` expression that could not be resolved to one.
#[derive(Debug, PartialEq)]
pub enum Angle {
    Deg(u32),
    Grad(u32),
    Rad(u32),
    Turn(u32),
    Calc(Calc<Angle>),
}

/// The literal angle of magnitude `v` in unit `u`.
pub open spec fn literal(u: AngleUnit, v: u32) -> Angle {
    match u {
        AngleUnit::Deg => Angle::Deg(v),
        AngleUnit::Grad => Angle::Grad(v),
        AngleUnit::Rad => Angle::Rad(v),
        AngleUnit::Turn => Angle::Turn(v),
    }
}

/// The raw magnitude of a literal angle, in its own unit.
pub open spec fn magnitude_of(a: Angle) -> Option<u32> {
    match a {
        Angle::Deg(v) | Angle::Grad(v) | Angle::Rad(v) | Angle::Turn(v) => Some(v),
        Angle::Calc(_) => None,
    }
}

/// The unit of a literal angle.
pub open spec fn unit_of(a: Angle) -> Option<AngleUnit> {
    match a {
        Angle::Deg(_) => Some(AngleUnit::Deg),
        Angle::Grad(_) => Some(AngleUnit::Grad),
        Angle::Rad(_) => Some(AngleUnit::Rad),
        Angle::Turn(_) => Some(AngleUnit::Turn),
        Angle::Calc(_) => None,
    }
}

/// The angle that a dimension token of value `v` and unit identifier `unit`
/// denotes, if the unit is an angle unit.
pub open spec fn spec_from_dimension(v: u32, unit: Seq<char>) -> Option<Angle> {
    match unit_named(unit) {
        Some(u) => Some(literal(u, v)),
        None => None,
    }
}

/// The angle that a parsed `calc()` body stands for: a resolved leaf is
/// unwrapped, anything else stays an expression.
pub open spec fn spec_from_calc(c: Calc<Angle>) -> Angle {
    match c {
        Calc::Value(v) => *v,
        _ => Angle::Calc(c),
    }
}

/// The magnitude and unit in which a literal angle is written out.
/// `rad_in_degrees` is the degree equivalent of a radian magnitude when that
/// equivalent is whole at five decimal places, and `None` otherwise.
pub open spec fn spec_dimension_form(a: Angle, rad_in_degrees: Option<u32>) -> Option<(u32, AngleUnit)> {
    match a {
        Angle::Deg(v) => Some((v, AngleUnit::Deg)),
        Angle::Grad(v) => Some((v, AngleUnit::Grad)),
        Angle::Turn(v) => Some((v, AngleUnit::Turn)),
        Angle::Rad(v) => match rad_in_degrees {
            Some(d) => Some((d, AngleUnit::Deg)),
            None => Some((v, AngleUnit::Rad)),
        },
        Angle::Calc(_) => None,
    }
}

/// The sum of two angles of which at least one is an expression: it stays
/// symbolic, a literal operand becoming a resolved leaf of the sum.
pub open spec fn spec_symbolic_sum(a: Angle, b: Angle) -> Angle {
    match (a, b) {
        (Angle::Calc(x), Angle::Calc(y)) => Angle::Calc(Calc::Sum(Box::new(x), Box::new(y))),
        (Angle::Calc(x), _) => Angle::Calc(Calc::Sum(Box::new(x), Box::new(Calc::Value(Box::new(b))))),
        (_, Angle::Calc(y)) => Angle::Calc(Calc::Sum(Box::new(Calc::Value(Box::new(a))), Box::new(y))),
        _ => a,
    }
}

impl Angle {
    /// The literal angle of magnitude `value` in `unit`.
    pub fn new(unit: AngleUnit, value: u32) -> (r: Angle)
        ensures
            r == literal(unit, value),
    {
        match unit {
            AngleUnit::Deg => Angle::Deg(value),
            AngleUnit::Grad => Angle::Grad(value),
            AngleUnit::Rad => Angle::Rad(value),
            AngleUnit::Turn => Angle::Turn(value),
        }
    }

    /// Whether the angle is an unresolved `calc()` expression.
    pub fn is_expression(&self) -> (r: bool)
        ensures
            r == (*self is Calc),
    {
        matches!(self, Angle::Calc(_))
    }

    /// The raw magnitude of a literal angle, in its own unit; `None` for an
    /// expression.
    pub fn magnitude(&self) -> (r: Option<u32>)
        ensures
            r == magnitude_of(*self),
    {
        match self {
            Angle::Deg(v) | Angle::Grad(v) | Angle::Rad(v) | Angle::Turn(v) => Some(*v),
            Angle::Calc(_) => None,
        }
    }

    /// The unit of a literal angle; `None` for an expression.
    pub fn unit(&self) -> (r: Option<AngleUnit>)
        ensures
            r == unit_of(*self),
    {
        match self {
            Angle::Deg(_) => Some(AngleUnit::Deg),
            Angle::Grad(_) => Some(AngleUnit::Grad),
            Angle::Rad(_) => Some(AngleUnit::Rad),
            Angle::Turn(_) => Some(AngleUnit::Turn),
            Angle::Calc(_) => None,
        }
    }

    /// The angle that a dimension token denotes: `value` in the unit that
    /// `unit` names (`deg`, `grad`, `turn` or `rad`, ASCII case ignored), or
    /// `None` when `unit` is no angle unit and the token is unexpected.
    pub fn from_dimension(value: u32, unit: &str) -> (r: Option<Angle>)
        ensures
            r == spec_from_dimension(value, unit@),
    {
        match AngleUnit::from_name(unit) {
            Some(u) => Some(Angle::new(u, value)),
            None => None,
        }
    }

    /// The angle that a parsed `calc()` body stands for. A body that is a
    /// single resolved leaf gives that leaf itself, so that no expression
    /// ever wraps a plain literal.
    pub fn from_calc(c: Calc<Angle>) -> (r: Angle)
        ensures
            r == spec_from_calc(c),
    {
        match c {
            Calc::Value(v) => *v,
            c => Angle::Calc(c),
        }
    }

    /// Whether the angle is a literal of magnitude `+0.0` or `-0.0`, in any
    /// unit. An expression is never zero.
    pub fn is_zero(&self) -> (r: bool)
        ensures
            r == (match magnitude_of(*self) {
                Some(v) => spec_is_zero(v),
                None => false,
            }),
    {
        match self {
            Angle::Deg(v) | Angle::Grad(v) | Angle::Rad(v) | Angle::Turn(v) => is_zero_bits(*v),
            Angle::Calc(_) => false,
        }
    }

    /// `==` against a bare binary32 scalar. The raw magnitude is compared,
    /// with no unit conversion: `Rad(1.0)` equals `1.0`. An expression
    /// equals no scalar.
    pub fn eq_scalar(&self, other: u32) -> (r: bool)
        ensures
            r == (match magnitude_of(*self) {
                Some(v) => spec_float_eq(v, other),
                None => false,
            }),
    {
        match self {
            Angle::Deg(v) | Angle::Grad(v) | Angle::Rad(v) | Angle::Turn(v) => float_eq(*v, other),
            Angle::Calc(_) => false,
        }
    }

    /// `partial_cmp` against a bare binary32 scalar, by raw magnitude with
    /// no unit conversion. An expression is incomparable.
    pub fn partial_cmp_scalar(&self, other: u32) -> (r: Option<Ordering>)
        ensures
            r == (match magnitude_of(*self) {
                Some(v) => spec_float_partial_cmp(v, other),
                None => None,
            }),
    {
        match self {
            Angle::Deg(v) | Angle::Grad(v) | Angle::Rad(v) | Angle::Turn(v) => float_partial_cmp(
                *v,
                other,
            ),
            Angle::Calc(_) => None,
        }
    }

    /// The sum of two angles of which at least one is an expression. The
    /// result is an expression: two expressions are added as trees, and a
    /// literal joins the other operand's tree as a resolved leaf, on its side.
    pub fn add_symbolic(self, other: Angle) -> (r: Angle)
        requires
            self is Calc || other is Calc,
        ensures
            r == spec_symbolic_sum(self, other),
            r is Calc,
    {
        match (self, other) {
            (Angle::Calc(a), Angle::Calc(b)) => Angle::Calc(a.sum(b)),
            (Angle::Calc(a), b) => Angle::Calc(a.sum(Calc::Value(Box::new(b)))),
            (a, Angle::Calc(b)) => Angle::Calc(Calc::Value(Box::new(a)).sum(b)),
            (a, _) => a,
        }
    }

    /// An expression scaled by a binary32 factor, kept symbolic.
    pub fn scale_symbolic(self, factor: u32) -> (r: Angle)
        requires
            self is Calc,
        ensures
            r == Angle::Calc(Calc::Product(factor, Box::new(self->Calc_0))),
    {
        match self {
            Angle::Calc(c) => Angle::Calc(c.scaled(factor)),
            a => a,
        }
    }

    /// The magnitude and unit in which a literal angle is written out; `None`
    /// for an expression. Degrees, gradians and turns keep their unit. A
    /// radian magnitude is written in degrees when `rad_in_degrees` gives its
    /// degree equivalent (which the caller gives only when that equivalent
    /// is whole at five decimal places), and in radians otherwise.
    pub fn dimension_form(&self, rad_in_degrees: Option<u32>) -> (r: Option<(u32, AngleUnit)>)
        ensures
            r == spec_dimension_form(*self, rad_in_degrees),
    {
        match self {
            Angle::Deg(v) => Some((*v, AngleUnit::Deg)),
            Angle::Grad(v) => Some((*v, AngleUnit::Grad)),
            Angle::Turn(v) => Some((*v, AngleUnit::Turn)),
            Angle::Rad(v) => match rad_in_degrees {
                Some(d) => Some((d, AngleUnit::Deg)),
                None => Some((*v, AngleUnit::Rad)),
            },
            Angle::Calc(_) => None,
        }
    }
}

/// Writing a literal angle out in its own unit and reading the magnitude
/// and unit name back gives the same angle; a radian angle written in
/// degrees reads back as degrees of the magnitude that was written.
pub proof fn lemma_dimension_form_round_trip(a: Angle, rad_in_degrees: Option<u32>)
    requires
        !(a is Calc),
    ensures
        ({
            let (v, u) = spec_dimension_form(a, rad_in_degrees).unwrap();
            spec_from_dimension(v, unit_name(u)) == Some(
                if a is Rad && rad_in_degrees is Some {
                    Angle::Deg(rad_in_degrees.unwrap())
                } else {
                    a
                },
            )
        }),
{
    let (v, u) = spec_dimension_form(a, rad_in_degrees).unwrap();
    crate::unit::lemma_unit_name_round_trip(u);
}

} // verus!
