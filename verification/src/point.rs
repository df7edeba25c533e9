//! A candidate parameter vector paired with its (possibly not yet
//! evaluated) objective value: the atomic unit search algorithms
//! manipulate.

use vstd::prelude::*;
use crate::fixed::FIX_MAX;

verus! {

/// A point in parameter space with an optional cached objective value.
///
/// The fields are private so that the cache can never go stale: replacing
/// the vector through [`Point::set_x`] drops the cached value, and the
/// value can only be set through [`Point::set_fx`].
pub struct Point {
    x: Vec<i64>,
    fx: Option<i64>,
}

impl Point {
    /// The coordinates the point holds.
    pub closed spec fn x_spec(self) -> Seq<i64> {
        self.x@
    }

    /// The cached objective value, if any.
    pub closed spec fn fx_spec(self) -> Option<i64> {
        self.fx
    }

    /// A fresh, not yet evaluated point at the given coordinates.
    pub fn new(x: Vec<i64>) -> (r: Point)
        ensures
            r.x_spec() == x@,
            r.fx_spec() is None,
    {
        Point { x, fx: None }
    }

    /// The dimensionality of the point.
    pub fn dim(&self) -> (r: usize)
        ensures
            r == self.x_spec().len(),
    {
        self.x.len()
    }

    /// Read one coordinate.
    pub fn coord(&self, i: usize) -> (r: i64)
        requires
            i < self.x_spec().len(),
        ensures
            r == self.x_spec()[i as int],
    {
        self.x[i]
    }

    /// Borrow the coordinate vector.
    pub fn coords(&self) -> (r: &Vec<i64>)
        ensures
            r@ == self.x_spec(),
    {
        &self.x
    }

    /// Replace the coordinates; any cached objective value is dropped
    /// because it no longer describes the stored vector.
    pub fn set_x(&mut self, x: Vec<i64>)
        ensures
            final(self).x_spec() == x@,
            final(self).fx_spec() is None,
    {
        self.x = x;
        self.fx = None;
    }

    /// Record the objective value of the stored vector.
    pub fn set_fx(&mut self, fx: i64)
        ensures
            final(self).x_spec() == old(self).x_spec(),
            final(self).fx_spec() == Some(fx),
    {
        self.fx = Some(fx);
    }

    /// The cached objective value, or the worst possible value when the
    /// point has not been evaluated.
    pub fn fx_or_worst(&self) -> (r: i64)
        ensures
            r == match self.fx_spec() {
                Some(v) => v,
                None => FIX_MAX,
            },
    {
        match self.fx {
            Some(v) => v,
            None => FIX_MAX,
        }
    }
}

} // verus!
