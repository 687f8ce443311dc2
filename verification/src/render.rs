//! The integrator's decisions: what a ray contributes, seen from the
//! recursion depth and from what the ray has hit.

use vstd::prelude::*;
use crate::ieee::{Scalar, MINUS_ONE_BITS, ONE_BITS};
use crate::scene::{Scene, SceneView};
use crate::triangle::{Material, Object};
use crate::vector::{Vec2, Vec3};

verus! {

/// The nearest hit of a ray.
#[derive(Debug, Clone, Copy, PartialEq, Eq, Structural)]
pub struct HitPayload {
    /// Ray parameter of the hit.
    pub tnear: Scalar,
    /// The element hit within the primitive: the triangle of a mesh, 0 for a
    /// sphere.
    pub idx: usize,
    /// Local coordinates of the hit: barycentric for a mesh.
    pub uv: Vec2,
    /// Place of the primitive hit in the scene's list.
    pub hit_obj: usize,
}

/// What a ray contributes.
#[derive(Debug, Clone, Copy, PartialEq, Eq, Structural)]
pub enum Radiance {
    /// The colour is settled.
    Color(Vec3),
    /// A dielectric was hit at `hit`: the colour is that of the reflected ray
    /// times the Fresnel reflectance plus that of the refracted ray times the
    /// rest, both rays cast at `depth`.
    ReflectionAndRefraction { hit: HitPayload, depth: i32 },
    /// A mirror was hit at `hit`: the colour is that of the reflected ray,
    /// cast at `depth`, times the Fresnel reflectance.
    Reflection { hit: HitPayload, depth: i32 },
    /// An opaque surface was hit at `hit`: the colour is the sum over the
    /// lights of what each adds, see [`contribution`].
    DiffuseAndGlossy { hit: HitPayload },
}

/// What a ray contributes that was cast at recursion level `depth` into
/// `scene` and whose nearest hit is `hit` (`None`: it left the scene).
///
/// Past the depth limit the ray is black, whatever it hit. A ray that hits
/// nothing sees the background. Otherwise the material of the primitive hit
/// decides, and secondary rays are cast one level deeper: every chain of rays
/// ends one level past the limit at the latest.
pub fn cast_ray(scene: &Scene, depth: i32, hit: Option<HitPayload>) -> (r: Radiance)
    requires
        hit matches Some(p) ==> p.hit_obj < scene@.objects.len(),
    ensures
        r == radiance(scene@, depth as int, hit),
        depth > scene@.max_depth ==> r == Radiance::Color(Vec3::zero_spec()),
        depth <= scene@.max_depth && scene@.objects.len() == 0 ==> r == Radiance::Color(
            scene@.background_color,
        ),
        r matches Radiance::ReflectionAndRefraction { depth: next, .. } ==> next == depth + 1,
        r matches Radiance::Reflection { depth: next, .. } ==> next == depth + 1,
{
    if scene.past_depth_limit(depth) {
        return Radiance::Color(Vec3::zero());
    }
    match hit {
        None => Radiance::Color(scene.get_background_color()),
        Some(p) => {
            match scene.get_obj()[p.hit_obj].get_material_properties() {
                Material::ReflectionAndRefraction => Radiance::ReflectionAndRefraction {
                    hit: p,
                    depth: depth + 1,
                },
                Material::Reflection => Radiance::Reflection { hit: p, depth: depth + 1 },
                Material::DiffuseAndGlossy => Radiance::DiffuseAndGlossy { hit: p },
            }
        },
    }
}

/// A scene without primitives shows its background: whatever ray is cast into
/// it at a depth within the limit, and whatever is handed over as its nearest
/// hit, the ray gets the background colour.
pub proof fn lemma_empty_scene_shows_background(
    scene: SceneView,
    depth: int,
    hit: Option<HitPayload>,
)
    requires
        scene.objects.len() == 0,
        depth <= scene.max_depth,
        hit matches Some(p) ==> p.hit_obj < scene.objects.len(),
    ensures
        radiance(scene, depth, hit) == Radiance::Color(scene.background_color),
{
}

/// Past the depth limit a ray is black, whatever the scene holds and
/// whatever the ray has hit.
pub proof fn lemma_black_past_depth_limit(scene: SceneView, depth: int, hit: Option<HitPayload>)
    requires
        depth > scene.max_depth,
    ensures
        radiance(scene, depth, hit) == Radiance::Color(Vec3::zero_spec()),
{
}

/// What a ray contributes, case by case: see [`cast_ray`].
pub open spec fn radiance(scene: SceneView, depth: int, hit: Option<HitPayload>) -> Radiance {
    if depth > scene.max_depth {
        Radiance::Color(Vec3::zero_spec())
    } else {
        match hit {
            None => Radiance::Color(scene.background_color),
            Some(p) => match scene.objects[p.hit_obj as int].material() {
                Material::ReflectionAndRefraction => Radiance::ReflectionAndRefraction {
                    hit: p,
                    depth: (depth + 1) as i32,
                },
                Material::Reflection => Radiance::Reflection { hit: p, depth: (depth + 1) as i32 },
                Material::DiffuseAndGlossy => Radiance::DiffuseAndGlossy { hit: p },
            },
        }
    }
}

/// Signed distance along the surface normal `n` by which the origin of a
/// secondary ray leaves the hit point, so that the ray does not meet the
/// surface it starts from: the origin is `hit_point + n * bias`.
///
/// `facing` is the dot product of `n` with the direction that decides, and
/// the magnitude is the scene's epsilon. A reflected or a refracted ray
/// starts on the side that it goes to: `facing` is the dot product with its
/// own direction, and the bias has its sign. The shadow rays of an opaque
/// surface start on the side that the incoming ray came from: `facing` is
/// the dot product with the incoming direction, and the bias has the other
/// sign.
pub fn bias(scene: &Scene, material: Material, facing: Scalar) -> (r: Scalar)
    ensures
        r == bias_spec(scene@.epsilon, material, facing),
        (Scalar { bits: 0 }).less(scene@.epsilon) ==> r.less(Scalar { bits: 0 }) == (facing.less(
            Scalar { bits: 0 },
        ) != (material == Material::DiffuseAndGlossy)),
{
    let epsilon = scene.get_epsilon();
    let against = facing.lt(Scalar::zero());
    match material {
        Material::DiffuseAndGlossy => if against {
            epsilon
        } else {
            epsilon.neg()
        },
        _ => if against {
            epsilon.neg()
        } else {
            epsilon
        },
    }
}

/// The bias for each material: see [`bias`].
pub open spec fn bias_spec(epsilon: Scalar, material: Material, facing: Scalar) -> Scalar {
    let against = facing.less(Scalar { bits: 0 });
    if (material == Material::DiffuseAndGlossy) != against {
        epsilon.negated()
    } else {
        epsilon
    }
}

/// Whether a light is hidden from a surface point.
///
/// `shadow` is the squared distance from the point to the nearest thing that
/// the shadow ray hits, if it hits anything; `light_distance2` is the squared
/// distance from the point to the light. The light is hidden when something
/// is hit strictly before the light.
pub fn occluded(shadow: Option<Scalar>, light_distance2: Scalar) -> (r: bool)
    ensures
        r == (shadow matches Some(d2) && d2.less(light_distance2)),
{
    match shadow {
        Some(d2) => d2.lt(light_distance2),
        None => false,
    }
}

/// What a light adds to the colour of a point on an opaque surface: its
/// diffuse and its specular term.
///
/// `shadow` and `light_distance2` are as in [`occluded`]; `diffuse` and
/// `specular` are the two terms of the light where nothing hides it. A
/// hidden light adds nothing, to neither sum: both terms are the zero vector.
pub fn contribution(
    shadow: Option<Scalar>,
    light_distance2: Scalar,
    diffuse: Vec3,
    specular: Vec3,
) -> (r: (Vec3, Vec3))
    ensures
        r == (if shadow matches Some(d2) && d2.less(light_distance2) {
            (Vec3::zero_spec(), Vec3::zero_spec())
        } else {
            (diffuse, specular)
        }),
{
    if occluded(shadow, light_distance2) {
        (Vec3::zero(), Vec3::zero())
    } else {
        (diffuse, specular)
    }
}

/// A surface as a ray meets it: the cosine of the angle of incidence, made
/// positive, and the refractive indices on the side the ray comes from
/// (`etai`) and on the side it goes to (`etat`).
#[derive(Debug, Clone, Copy, PartialEq, Eq, Structural)]
pub struct Interface {
    pub cosi: Scalar,
    pub etai: Scalar,
    pub etat: Scalar,
}

/// The cosine of the angle between a ray and a normal, from the dot product
/// of the two unit vectors: the dot product held to `[-1, 1]`.
pub open spec fn cosine(dot: Scalar) -> Scalar {
    dot.clamped(Scalar { bits: MINUS_ONE_BITS }, Scalar { bits: ONE_BITS })
}

/// The surface as the refracted ray sees it, and the normal on the side the
/// ray comes from.
///
/// `dot` is the dot product of the ray's direction with the normal `n`, `ior`
/// the refractive index of the primitive; outside it the index is 1. A ray
/// with its cosine below zero enters the primitive: the cosine is made
/// positive. Any other ray leaves it: the indices change places and the
/// normal is turned round.
pub fn refract_interface(dot: Scalar, n: Vec3, ior: Scalar) -> (r: (Interface, Vec3))
    ensures
        r == (if cosine(dot).less(Scalar { bits: 0 }) {
            (
                Interface {
                    cosi: cosine(dot).negated(),
                    etai: Scalar { bits: ONE_BITS },
                    etat: ior,
                },
                n,
            )
        } else {
            (
                Interface { cosi: cosine(dot), etai: ior, etat: Scalar { bits: ONE_BITS } },
                n.negated(),
            )
        }),
        !r.0.cosi.less(Scalar { bits: 0 }),
{
    let cosi = dot.clamp(Scalar::minus_one(), Scalar::one());
    if cosi.lt(Scalar::zero()) {
        (Interface { cosi: cosi.neg(), etai: Scalar::one(), etat: ior }, n)
    } else {
        (Interface { cosi, etai: ior, etat: Scalar::one() }, n.neg())
    }
}

/// The direction of the refracted ray.
///
/// `k` is `1 - eta^2 (1 - cosi^2)` with `eta = etai / etat`, and `direction`
/// is `eta * I + (eta * cosi - sqrt(k)) * n` for the incoming direction `I`.
/// With `k` below zero all light is reflected, and the refracted direction is
/// the zero vector.
pub fn refract(k: Scalar, direction: Vec3) -> (r: Vec3)
    ensures
        r == (if k.less(Scalar { bits: 0 }) {
            Vec3::zero_spec()
        } else {
            direction
        }),
{
    if k.lt(Scalar::zero()) {
        Vec3::zero()
    } else {
        direction
    }
}

/// The surface as the Fresnel equations see it.
///
/// `dot` and `ior` are as in [`refract_interface`]. A ray with its cosine
/// above zero leaves the primitive, and the indices change places. The cosine
/// comes back as its absolute value.
pub fn fresnel_interface(dot: Scalar, ior: Scalar) -> (r: Interface)
    ensures
        r == (if (Scalar { bits: 0 }).less(cosine(dot)) {
            Interface { cosi: cosine(dot).absolute(), etai: ior, etat: Scalar { bits: ONE_BITS } }
        } else {
            Interface { cosi: cosine(dot).absolute(), etai: Scalar { bits: ONE_BITS }, etat: ior }
        }),
        !r.cosi.less(Scalar { bits: 0 }),
{
    let cosi = dot.clamp(Scalar::minus_one(), Scalar::one());
    if cosi.gt(Scalar::zero()) {
        Interface { cosi: cosi.abs(), etai: ior, etat: Scalar::one() }
    } else {
        Interface { cosi: cosi.abs(), etai: Scalar::one(), etat: ior }
    }
}

/// The share of light that a surface reflects.
///
/// `sint` is the sine of the angle of the transmitted ray,
/// `etai / etat * sqrt(max(0, 1 - cosi^2))`, and `reflectance` the mean of
/// the reflectances of the two polarisations that the Fresnel equations give.
/// With `sint` at one or above all light is reflected.
pub fn fresnel(sint: Scalar, reflectance: Scalar) -> (r: Scalar)
    ensures
        r == (if (Scalar { bits: ONE_BITS }).at_most(sint) {
            Scalar { bits: ONE_BITS }
        } else {
            reflectance
        }),
{
    if sint.ge(Scalar::one()) {
        Scalar::one()
    } else {
        reflectance
    }
}

/// Whether the outcome of an intersection test counts as a hit: the test
/// reports one, and the ray parameter is finite and not below zero.
pub open spec fn counts(outcome: (bool, Scalar, usize, Vec2)) -> bool {
    outcome.0 && outcome.1.finite() && !outcome.1.less(Scalar { bits: 0 })
}

/// Whether outcome `k` is the nearest hit among `outcomes`: it counts, no
/// outcome that counts has a smaller ray parameter, and those before it have
/// a larger one.
pub open spec fn nearest(outcomes: Seq<(bool, Scalar, usize, Vec2)>, k: int) -> bool {
    &&& 0 <= k < outcomes.len()
    &&& counts(outcomes[k])
    &&& forall|j: int|
        0 <= j < outcomes.len() && counts(#[trigger] outcomes[j]) ==> !outcomes[j].1.less(
            outcomes[k].1,
        )
    &&& forall|j: int|
        0 <= j < k && counts(#[trigger] outcomes[j]) ==> outcomes[k].1.less(outcomes[j].1)
}

/// There is one nearest hit at most: `nearest` holds of no two places.
pub proof fn lemma_nearest_is_unique(
    outcomes: Seq<(bool, Scalar, usize, Vec2)>,
    k1: int,
    k2: int,
)
    requires
        nearest(outcomes, k1),
        nearest(outcomes, k2),
    ensures
        k1 == k2,
{
    if k1 < k2 {
        assert(counts(outcomes[k1]));
        assert(outcomes[k2].1.less(outcomes[k1].1));
    } else if k2 < k1 {
        assert(counts(outcomes[k2]));
        assert(outcomes[k1].1.less(outcomes[k2].1));
    }
}

/// The nearest hit does not depend on the order of the primitives: two runs
/// of outcomes that hold the same outcomes have their nearest hits at the
/// same ray parameter.
pub proof fn lemma_nearest_is_independent_of_order(
    first: Seq<(bool, Scalar, usize, Vec2)>,
    k1: int,
    second: Seq<(bool, Scalar, usize, Vec2)>,
    k2: int,
)
    requires
        forall|i: int| 0 <= i < first.len() ==> second.contains(#[trigger] first[i]),
        forall|i: int| 0 <= i < second.len() ==> first.contains(#[trigger] second[i]),
        nearest(first, k1),
        nearest(second, k2),
    ensures
        first[k1].1.same(second[k2].1),
{
    assert(second.contains(first[k1]));
    let j2 = choose|j: int| 0 <= j < second.len() && second[j] == first[k1];
    assert(counts(second[j2]));
    assert(first.contains(second[k2]));
    let j1 = choose|j: int| 0 <= j < first.len() && first[j] == second[k2];
    assert(counts(first[j1]));
}

/// Without outcomes there is no hit: none counts.
pub proof fn lemma_nothing_to_hit(outcomes: Seq<(bool, Scalar, usize, Vec2)>)
    requires
        outcomes.len() == 0,
    ensures
        forall|j: int| 0 <= j < outcomes.len() ==> !counts(#[trigger] outcomes[j]),
        forall|k: int| !nearest(outcomes, k),
{
}

/// The nearest hit of a ray among the primitives of a scene.
///
/// `outcomes` holds, for each primitive in the scene's order, what its
/// intersection test gave for the ray: whether it is hit, the ray parameter,
/// the element index and the local coordinates. The result is the hit with
/// the smallest ray parameter among those that count, the first of them where
/// several are equally near, and `None` where none counts.
pub fn trace(outcomes: &Vec<(bool, Scalar, usize, Vec2)>) -> (r: Option<HitPayload>)
    ensures
        r is None <==> forall|j: int| 0 <= j < outcomes@.len() ==> !counts(#[trigger] outcomes@[j]),
        r matches Some(p) ==> nearest(outcomes@, p.hit_obj as int) && p == (HitPayload {
            tnear: outcomes@[p.hit_obj as int].1,
            idx: outcomes@[p.hit_obj as int].2,
            uv: outcomes@[p.hit_obj as int].3,
            hit_obj: p.hit_obj,
        }),
{
    let mut best: Option<HitPayload> = None;
    let mut i: usize = 0;
    while i < outcomes.len()
        invariant
            i <= outcomes@.len(),
            best is None ==> forall|j: int| 0 <= j < i ==> !counts(#[trigger] outcomes@[j]),
            best matches Some(p) ==> nearest(outcomes@.take(i as int), p.hit_obj as int) && p == (
            HitPayload {
                tnear: outcomes@[p.hit_obj as int].1,
                idx: outcomes@[p.hit_obj as int].2,
                uv: outcomes@[p.hit_obj as int].3,
                hit_obj: p.hit_obj,
            }),
        decreases outcomes@.len() - i,
    {
        let (hit, t, idx, uv) = outcomes[i];
        let nearer = hit && t.is_finite() && !t.lt(Scalar::zero()) && match best {
            Some(p) => t.lt(p.tnear),
            None => true,
        };
        if nearer {
            best = Some(HitPayload { tnear: t, idx, uv, hit_obj: i });
        }
        i += 1;
    }
    assert(outcomes@.take(i as int) =~= outcomes@);
    best
}

} // verus!
