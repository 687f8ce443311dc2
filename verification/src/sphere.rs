//! Spheres, and the quadratic that a ray and a sphere give rise to.

use vstd::prelude::*;
use crate::ieee::Scalar;
use crate::triangle::{Material, Object, SpecularProperties};
use crate::vector::{Vec2, Vec3};

verus! {

/// A sphere with its material.
///
/// `radius2` caches the square of `radius`; whoever builds a sphere fills
/// both.
#[derive(Debug, Copy, Clone, PartialEq, Eq, Structural)]
pub struct Sphere {
    pub center: Vec3,
    pub radius: Scalar,
    pub radius2: Scalar,
    pub material: Material,
    pub ior: Scalar,
    pub specular: SpecularProperties,
    pub diffuse_color: Vec3,
}

/// Why a quadratic has no roots to offer.
#[derive(Debug, Clone, Copy, PartialEq, Eq, Structural)]
pub enum SolveError {
    /// The discriminant is negative: there is no real root.
    NoSolution,
}

/// What the coefficients of `a t^2 + b t + c = 0` give the solver to decide
/// on.
///
/// The roots away from a double root are taken in the form that loses no
/// digits: with `q = -0.5 * (b + sqrt(discr))` where `b` is above zero and
/// `q = -0.5 * (b - sqrt(discr))` where it is not, they are `q / a` and
/// `c / q`.
#[derive(Debug, Clone, Copy, PartialEq, Eq)]
pub struct QuadraticTerms {
    /// The coefficient `b`.
    pub b: Scalar,
    /// The discriminant `b^2 - 4 a c`.
    pub discr: Scalar,
    /// `-0.5 * b / a`: the root where the discriminant is zero.
    pub double_root: Scalar,
    /// `(q / a, c / q)` with `q = -0.5 * (b + sqrt(discr))`.
    pub roots_up: (Scalar, Scalar),
    /// `(q / a, c / q)` with `q = -0.5 * (b - sqrt(discr))`.
    pub roots_down: (Scalar, Scalar),
}

impl QuadraticTerms {
    /// The two roots before they are put in order, where the discriminant is
    /// not below zero.
    pub open spec fn roots(self) -> (Scalar, Scalar) {
        let zero = Scalar { bits: 0 };
        if self.discr.same(zero) {
            (self.double_root, self.double_root)
        } else if zero.less(self.b) {
            self.roots_up
        } else {
            self.roots_down
        }
    }
}

/// The pair in ascending order: as it is where the first is below the second,
/// swapped where not.
pub open spec fn ascending(pair: (Scalar, Scalar)) -> (Scalar, Scalar) {
    if pair.0.less(pair.1) {
        pair
    } else {
        (pair.1, pair.0)
    }
}

/// The real roots of a quadratic, the smaller first.
///
/// A discriminant below zero means that there is none. A discriminant of
/// zero gives the double root twice.
pub fn solve_quadratic(terms: &QuadraticTerms) -> (r: Result<(Scalar, Scalar), SolveError>)
    ensures
        r is Err <==> terms.discr.less(Scalar { bits: 0 }),
        r matches Err(e) ==> e == SolveError::NoSolution,
        r matches Ok(found) ==> found == ascending(terms.roots()),
        r matches Ok(found) ==> !found.1.less(found.0),
        r matches Ok(found) ==> !found.0.nan() && !found.1.nan() ==> found.0.at_most(found.1),
        r matches Ok(found) ==> terms.discr.same(Scalar { bits: 0 }) ==> found.0 == found.1,
{
    let zero = Scalar::zero();
    let x0: Scalar;
    let x1: Scalar;
    if terms.discr.equals(zero) {
        x0 = terms.double_root;
        x1 = terms.double_root;
    } else if terms.discr.lt(zero) {
        return Err(SolveError::NoSolution);
    } else if terms.b.gt(zero) {
        x0 = terms.roots_up.0;
        x1 = terms.roots_up.1;
    } else {
        x0 = terms.roots_down.0;
        x1 = terms.roots_down.1;
    }
    if x0.lt(x1) {
        Ok((x0, x1))
    } else {
        Ok((x1, x0))
    }
}

impl Sphere {
    /// Where a ray meets a sphere: whether it does, the ray parameter, and
    /// the element index and local coordinates, which a sphere leaves at zero.
    ///
    /// `terms` belong to the quadratic `|O + t D - C|^2 = r^2` in `t`. With
    /// both roots below zero the sphere lies behind the ray. With only the
    /// smaller below zero the ray starts inside and leaves at the larger.
    /// Otherwise it enters at the smaller.
    pub fn intersection(terms: &QuadraticTerms) -> (r: (bool, Scalar, usize, Vec2))
        ensures
            r == Sphere::intersection_spec(*terms),
    {
        let zero = Scalar::zero();
        match solve_quadratic(terms) {
            Ok((t0, t1)) => {
                if t1.lt(zero) {
                    (false, t1, 0, Vec2::zero())
                } else if t0.lt(zero) {
                    (true, t1, 0, Vec2::zero())
                } else {
                    (true, t0, 0, Vec2::zero())
                }
            },
            Err(_) => (false, zero, 0, Vec2::zero()),
        }
    }

    /// The outcome for each pair of roots: see [`Sphere::intersection`].
    pub open spec fn intersection_spec(terms: QuadraticTerms) -> (bool, Scalar, usize, Vec2) {
        let zero = Scalar { bits: 0 };
        let (t0, t1) = ascending(terms.roots());
        if terms.discr.less(zero) {
            (false, zero, 0, Vec2::zero_spec())
        } else if t1.less(zero) {
            (false, t1, 0, Vec2::zero_spec())
        } else if t0.less(zero) {
            (true, t1, 0, Vec2::zero_spec())
        } else {
            (true, t0, 0, Vec2::zero_spec())
        }
    }
}

impl Object for Sphere {
    /// The colour that the sphere stores, wherever it is asked for.
    fn eval_diffuse_color(&self, _tile: Vec2) -> (r: Vec3)
        ensures
            r == self.diffuse_color,
    {
        self.diffuse_color
    }

    fn get_material_properties(&self) -> (r: Material)
        ensures
            r == self.material,
    {
        self.material
    }

    fn get_ior(&self) -> (r: Scalar)
        ensures
            r == self.ior,
    {
        self.ior
    }

    fn get_specular_properties(&self) -> (r: SpecularProperties)
        ensures
            r == self.specular,
    {
        self.specular
    }
}

} // verus!
