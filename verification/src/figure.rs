//! Numbers that the rules combine but do not work out.
//!
//! Load, memory and traffic are measured in floating point. Here such a number is carried
//! through unchanged, and a sum or a difference of numbers is written down for whoever holds
//! the measurements to work out.

use vstd::prelude::*;

verus! {

/// A number: a whole one that the rules fix, a measured one, or one made of others.
#[derive(Debug)]
pub enum Figure<T> {
    Count(i64),
    Measured(T),
    Sum(Box<Figure<T>>, Box<Figure<T>>),
    Difference(Box<Figure<T>>, Box<Figure<T>>),
}

impl<T: Copy> Figure<T> {
    /// The same figure once more.
    pub fn copy(&self) -> (r: Figure<T>)
        ensures
            r == *self,
        decreases self,
    {
        match self {
            Figure::Count(n) => Figure::Count(*n),
            Figure::Measured(x) => Figure::Measured(*x),
            Figure::Sum(a, b) => Figure::Sum(Box::new(a.copy()), Box::new(b.copy())),
            Figure::Difference(a, b) => Figure::Difference(
                Box::new(a.copy()),
                Box::new(b.copy()),
            ),
        }
    }
}

/// What a figure comes to where the measurements are whole numbers and nothing is rounded.
pub open spec fn exact(f: Figure<u64>) -> int
    decreases f,
{
    match f {
        Figure::Count(n) => n as int,
        Figure::Measured(x) => x as int,
        Figure::Sum(a, b) => exact(*a) + exact(*b),
        Figure::Difference(a, b) => exact(*a) - exact(*b),
    }
}

} // verus!
