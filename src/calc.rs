use vstd::prelude::*;

verus! {

/// A `calc()` expression over leaves of type `T`: a resolved leaf, the sum
/// of two expressions, or an expression scaled by a binary32 factor (held
/// as its bit pattern).
#[derive(Debug, PartialEq)]
pub enum Calc<T> {
    Value(Box<T>),
    Sum(Box<Calc<T>>, Box<Calc<T>>),
    Product(u32, Box<Calc<T>>),
}

impl<T> Calc<T> {
    /// The expression `self + other`, kept symbolic.
    pub fn sum(self, other: Calc<T>) -> (r: Calc<T>)
        ensures
            r == Calc::Sum(Box::new(self), Box::new(other)),
    {
        Calc::Sum(Box::new(self), Box::new(other))
    }

    /// The expression `self * factor`, kept symbolic.
    pub fn scaled(self, factor: u32) -> (r: Calc<T>)
        ensures
            r == Calc::Product(factor, Box::new(self)),
    {
        Calc::Product(factor, Box::new(self))
    }

    /// Whether the expression is a single resolved leaf.
    pub fn is_value(&self) -> (r: bool)
        ensures
            r == (self is Value),
    {
        matches!(self, Calc::Value(_))
    }
}

} // verus!
