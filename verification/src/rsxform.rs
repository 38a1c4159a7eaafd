//! Rotation-scale transforms: a compressed matrix that rotates, scales
//! and translates, but never skews.

use vstd::prelude::*;

use crate::scalar::{scalar_is_zero, Scalar, SCALAR_ONE_BITS};

verus! {

/// A two-dimensional offset.
#[derive(Clone, Copy, PartialEq, Eq, Structural, Debug)]
pub struct Vector {
    pub x: Scalar,
    pub y: Scalar,
}

impl Vector {
    /// The vector with the given coordinates.
    pub fn new(x: Scalar, y: Scalar) -> (r: Vector)
        ensures
            r.x == x,
            r.y == y,
    {
        Vector { x, y }
    }

    /// The zero vector.
    pub fn zero() -> (r: Vector)
        ensures
            r.x.bits == 0,
            r.y.bits == 0,
    {
        Vector { x: Scalar::zero(), y: Scalar::zero() }
    }
}

/// A rotation-scale transform: the first column of a rotation-scale
/// matrix, `scos` and `ssin`, and a translation `t`.
#[derive(Clone, Copy, PartialEq, Eq, Structural, Debug)]
pub struct RSXform {
    /// Scale times the cosine of the rotation.
    pub scos: Scalar,
    /// Scale times the sine of the rotation.
    pub ssin: Scalar,
    /// The translation.
    pub t: Vector,
}

impl RSXform {
    /// The transform with the given coefficients and translation.
    pub fn new(scos: Scalar, ssin: Scalar, t: Vector) -> (r: RSXform)
        ensures
            r.scos == scos,
            r.ssin == ssin,
            r.t == t,
    {
        RSXform { scos, ssin, t }
    }

    /// Whether mapping a rectangle through the transform yields a
    /// rectangle again: so when the rotation is a multiple of a quarter
    /// turn, which one of the two coefficients being zero witnesses.
    pub fn rect_stays_rect(&self) -> (r: bool)
        ensures
            r == (scalar_is_zero(self.scos.bits) || scalar_is_zero(self.ssin.bits)),
    {
        self.scos.is_zero() || self.ssin.is_zero()
    }

    /// Makes the transform the identity.
    pub fn set_identity(&mut self)
        ensures
            final(self).scos.bits == SCALAR_ONE_BITS,
            final(self).ssin.bits == 0,
            final(self).t.x.bits == 0,
            final(self).t.y.bits == 0,
    {
        self.set(Scalar::one(), Scalar::zero(), Vector::zero());
    }

    /// Replaces the coefficients and translation.
    pub fn set(&mut self, scos: Scalar, ssin: Scalar, t: Vector)
        ensures
            final(self).scos == scos,
            final(self).ssin == ssin,
            final(self).t == t,
    {
        self.scos = scos;
        self.ssin = ssin;
        self.t = t;
    }
}

} // verus!
