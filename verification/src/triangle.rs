//! Materials, triangles and triangle meshes.

use vstd::prelude::*;
use crate::ieee::{Scalar, HALF_BITS, INFINITY_BITS};
use crate::light::{Light, TriangleTerms};
use crate::vector::{Vec2, Vec3};

verus! {

/// How a surface answers light; it selects the branch of the integrator.
#[derive(Debug, Copy, Clone, PartialEq, Eq, Structural)]
pub enum Material {
    /// Opaque: lit by the light sources, with a diffuse and a specular part.
    DiffuseAndGlossy,
    /// Dielectric: a reflected and a refracted ray, blended by Fresnel.
    ReflectionAndRefraction,
    /// Mirror: a reflected ray only.
    Reflection,
}

/// Phong exponent, weight of the diffuse part, weight of the specular part.
#[derive(Debug, Copy, Clone, PartialEq, Eq, Structural)]
pub struct SpecularProperties(pub Scalar, pub Scalar, pub Scalar);

/// Three vertices with their texture coordinates.
#[derive(Debug, Copy, Clone, PartialEq, Eq, Structural)]
pub struct Triangle {
    pub v0: Vec3,
    pub v1: Vec3,
    pub v2: Vec3,
    pub s0: Vec2,
    pub s1: Vec2,
    pub s2: Vec2,
}

/// A list of triangles that share one material.
#[derive(Debug, Clone, PartialEq, Eq)]
pub struct MeshTriangle {
    pub vertices: Vec<Triangle>,
    pub material: Material,
    pub ior: Scalar,
    pub specular: SpecularProperties,
}

/// Pattern of 0.815.
pub const DARK_RED_BITS: u64 = 0x3FEA_147A_E147_AE14;

/// Pattern of 0.235.
pub const DARK_GREEN_BITS: u64 = 0x3FCE_147A_E147_AE14;

/// Pattern of 0.031.
pub const DARK_BLUE_BITS: u64 = 0x3F9F_BE76_C8B4_3958;

/// Pattern of 0.937.
pub const LIGHT_RED_GREEN_BITS: u64 = 0x3FED_FBE7_6C8B_4396;

/// Pattern of 0.231.
pub const LIGHT_BLUE_BITS: u64 = 0x3FCD_9168_72B0_20C5;

/// The first colour of the checkerboard, `(0.815, 0.235, 0.031)`.
pub open spec fn checker_dark() -> Vec3 {
    Vec3 {
        x: Scalar { bits: DARK_RED_BITS },
        y: Scalar { bits: DARK_GREEN_BITS },
        z: Scalar { bits: DARK_BLUE_BITS },
    }
}

/// The second colour of the checkerboard, `(0.937, 0.937, 0.231)`.
pub open spec fn checker_light() -> Vec3 {
    Vec3 {
        x: Scalar { bits: LIGHT_RED_GREEN_BITS },
        y: Scalar { bits: LIGHT_RED_GREEN_BITS },
        z: Scalar { bits: LIGHT_BLUE_BITS },
    }
}

/// The colour of the checkerboard at a texture coordinate.
///
/// The board has five tiles to the unit along each axis. `tile` holds, for
/// each axis, how far into its tile the coordinate lies: the fractional part
/// of five times the coordinate. An axis counts where that is above one half,
/// and the colour is the second one where exactly one axis counts.
pub open spec fn checkerboard(tile: Vec2) -> Vec3 {
    let half = Scalar { bits: HALF_BITS };
    if half.less(tile.x) != half.less(tile.y) {
        checker_light()
    } else {
        checker_dark()
    }
}

/// What every geometric primitive can tell of itself, whichever of its
/// elements a ray has hit.
pub trait Object {
    /// The diffuse colour at a texture coordinate: a checkerboard, see
    /// [`checkerboard`], unless the primitive has a colour of its own.
    fn eval_diffuse_color(&self, tile: Vec2) -> (r: Vec3)
        default_ensures
            r == checkerboard(tile),
    {
        let half = Scalar::half();
        let pattern = tile.x.gt(half) ^ tile.y.gt(half);
        if pattern {
            Vec3::new(
                Scalar::from_bits(LIGHT_RED_GREEN_BITS),
                Scalar::from_bits(LIGHT_RED_GREEN_BITS),
                Scalar::from_bits(LIGHT_BLUE_BITS),
            )
        } else {
            Vec3::new(
                Scalar::from_bits(DARK_RED_BITS),
                Scalar::from_bits(DARK_GREEN_BITS),
                Scalar::from_bits(DARK_BLUE_BITS),
            )
        }
    }

    /// The material, which selects the branch of the integrator.
    fn get_material_properties(&self) -> Material;

    /// The refractive index.
    fn get_ior(&self) -> Scalar;

    /// Phong exponent and weights of the diffuse and the specular part.
    fn get_specular_properties(&self) -> SpecularProperties;
}

/// Whether triangle `k` is the one that a ray hits first among those that
/// `terms` belong to: it is hit at a ray parameter below infinity, no
/// triangle is hit at a smaller one, and those before it are hit at a larger
/// one or not at all.
pub open spec fn first_hit(terms: Seq<TriangleTerms>, k: int) -> bool {
    let infinity = Scalar { bits: INFINITY_BITS };
    &&& 0 <= k < terms.len()
    &&& terms[k].hit()
    &&& terms[k].t.less(infinity)
    &&& forall|j: int|
        0 <= j < terms.len() && (#[trigger] terms[j]).hit() ==> !terms[j].t.less(terms[k].t)
    &&& forall|j: int|
        0 <= j < k && (#[trigger] terms[j]).hit() && terms[j].t.less(infinity) ==> terms[k].t.less(
            terms[j].t,
        )
}

/// Whether a ray hits none of the triangles that `terms` belong to at a ray
/// parameter below infinity.
pub open spec fn all_missed(terms: Seq<TriangleTerms>) -> bool {
    forall|j: int|
        0 <= j < terms.len() ==> !((#[trigger] terms[j]).hit() && terms[j].t.less(
            Scalar { bits: INFINITY_BITS },
        ))
}

/// A ray hits one triangle first at most: `first_hit` holds of no two
/// places.
pub proof fn lemma_first_hit_is_unique(terms: Seq<TriangleTerms>, k1: int, k2: int)
    requires
        first_hit(terms, k1),
        first_hit(terms, k2),
    ensures
        k1 == k2,
{
    if k1 < k2 {
        assert(terms[k1].hit());
        assert(terms[k2].t.less(terms[k1].t));
    } else if k2 < k1 {
        assert(terms[k2].hit());
        assert(terms[k1].t.less(terms[k2].t));
    }
}

impl MeshTriangle {
    /// Where a ray meets a mesh: whether it does, the ray parameter, the
    /// index of the triangle, and the barycentric weights of the hit.
    ///
    /// `terms` holds, for each triangle of the mesh in order, what the ray
    /// and the triangle give. The hit is that of the triangle with the
    /// smallest ray parameter, the first of them where several are equally
    /// near. A mesh that is missed answers with an infinite ray parameter,
    /// index 0 and weights of zero.
    pub fn intersection(terms: &Vec<TriangleTerms>) -> (r: (bool, Scalar, usize, Vec2))
        ensures
            r.0 <==> !all_missed(terms@),
            r.0 ==> first_hit(terms@, r.2 as int) && r.1 == terms@[r.2 as int].t && r.3 == (Vec2 {
                x: terms@[r.2 as int].b1,
                y: terms@[r.2 as int].b2,
            }),
            !r.0 ==> r == (false, Scalar { bits: INFINITY_BITS }, 0usize, Vec2::zero_spec()),
    {
        let mut isec = false;
        let mut t = Scalar::infinity();
        let mut ix: usize = 0;
        let mut uv = Vec2::zero();
        let mut i: usize = 0;
        while i < terms.len()
            invariant
                i <= terms@.len(),
                isec <==> !all_missed(terms@.take(i as int)),
                isec ==> first_hit(terms@.take(i as int), ix as int) && t == terms@[ix as int].t
                    && uv == (Vec2 { x: terms@[ix as int].b1, y: terms@[ix as int].b2 }),
                !isec ==> t == (Scalar { bits: INFINITY_BITS }) && ix == 0 && uv
                    == Vec2::zero_spec(),
            decreases terms@.len() - i,
        {
            let ghost seen = terms@.take(i as int);
            let ghost next = terms@.take(i + 1);
            assert(forall|j: int| 0 <= j < i ==> seen[j] == #[trigger] next[j]);
            let (cond, tn, b1, b2) = Light::intersection(&terms[i]);
            if cond && t.gt(tn) {
                isec = true;
                t = tn;
                ix = i;
                uv = Vec2::new(b1, b2);
                assert(next[i as int].hit());
            } else {
                assert(isec ==> next[ix as int] == seen[ix as int]);
            }
            i += 1;
        }
        assert(terms@.take(i as int) =~= terms@);
        (isec, t, ix, uv)
    }
}

impl Object for MeshTriangle {
    fn get_material_properties(&self) -> (r: Material)
        ensures
            r == self.material,
    {
        self.material
    }

    fn get_ior(&self) -> (r: Scalar)
        ensures
            r == self.ior,
    {
        self.ior
    }

    fn get_specular_properties(&self) -> (r: SpecularProperties)
        ensures
            r == self.specular,
    {
        self.specular
    }
}

} // verus!
