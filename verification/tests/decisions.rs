//! Each decision of the library on hand-made terms.

use raytracer::{
    bias, cast_ray, contribution, fresnel, fresnel_interface, occluded, refract, refract_interface,
    solve_quadratic, trace, HitPayload, Interface, Light, Material, MeshTriangle, Object,
    ObjectAppend, Primitive, QuadraticTerms, Radiance, Scalar, Scene, SolveError, SpecularProperties, Sphere,
    TriangleTerms, Vec2, Vec3,
};

fn s(v: f64) -> Scalar {
    Scalar::from_bits(v.to_bits())
}

fn f(v: Scalar) -> f64 {
    f64::from_bits(v.to_bits())
}

fn v3(x: f64, y: f64, z: f64) -> Vec3 {
    Vec3::new(s(x), s(y), s(z))
}

fn terms(b: f64, discr: f64, double: f64, up: (f64, f64), down: (f64, f64)) -> QuadraticTerms {
    QuadraticTerms {
        b: s(b),
        discr: s(discr),
        double_root: s(double),
        roots_up: (s(up.0), s(up.1)),
        roots_down: (s(down.0), s(down.1)),
    }
}

fn roots(t: &QuadraticTerms) -> Result<(f64, f64), SolveError> {
    solve_quadratic(t).map(|(x0, x1)| (f(x0), f(x1)))
}

#[test]
fn negative_discriminant_has_no_solution() {
    let t = terms(1., -4., 7., (1., 2.), (3., 4.));
    assert_eq!(solve_quadratic(&t), Err(SolveError::NoSolution));
    let t = terms(1., -5e-324, 7., (1., 2.), (3., 4.));
    assert_eq!(solve_quadratic(&t), Err(SolveError::NoSolution));
    let t = terms(1., f64::NEG_INFINITY, 7., (1., 2.), (3., 4.));
    assert_eq!(solve_quadratic(&t), Err(SolveError::NoSolution));
}

#[test]
fn zero_discriminant_gives_the_double_root_twice() {
    let t = terms(1., 0., 7., (1., 2.), (3., 4.));
    assert_eq!(roots(&t), Ok((7., 7.)));
    let t = terms(-1., -0., -7., (1., 2.), (3., 4.));
    assert_eq!(roots(&t), Ok((-7., -7.)));
}

#[test]
fn positive_discriminant_takes_the_stable_pair_in_order() {
    let t = terms(1., 4., 7., (1., 2.), (3., 4.));
    assert_eq!(roots(&t), Ok((1., 2.)));
    let t = terms(1., 4., 7., (2., 1.), (3., 4.));
    assert_eq!(roots(&t), Ok((1., 2.)));
    let t = terms(-1., 4., 7., (1., 2.), (4., 3.));
    assert_eq!(roots(&t), Ok((3., 4.)));
    let t = terms(0., 4., 7., (1., 2.), (4., 3.));
    assert_eq!(roots(&t), Ok((3., 4.)));
    let t = terms(-0., 4., 7., (1., 2.), (5., 5.));
    assert_eq!(roots(&t), Ok((5., 5.)));
}

#[test]
fn undefined_terms_pass_through_the_solver() {
    let t = terms(1., f64::NAN, 7., (2., 1.), (3., 4.));
    assert_eq!(roots(&t), Ok((1., 2.)));
    let t = terms(f64::NAN, 4., 7., (2., 1.), (4., 3.));
    assert_eq!(roots(&t), Ok((3., 4.)));
    let t = terms(1., 4., 7., (f64::NAN, 1.), (3., 4.));
    let (x0, x1) = roots(&t).unwrap();
    assert_eq!(x0, 1.);
    assert!(x1.is_nan());
}

fn sphere_hit(t: &QuadraticTerms) -> (bool, f64, usize, Vec2) {
    let (hit, at, idx, uv) = Sphere::intersection(t);
    (hit, f(at), idx, uv)
}

#[test]
fn sphere_is_hit_at_the_first_root_ahead() {
    let ahead = terms(-1., 4., 0., (0., 0.), (5., 2.));
    assert_eq!(sphere_hit(&ahead), (true, 2., 0, Vec2::zero()));
    let inside = terms(-1., 4., 0., (0., 0.), (-3., 2.));
    assert_eq!(sphere_hit(&inside), (true, 2., 0, Vec2::zero()));
    let behind = terms(1., 4., 0., (-3., -2.), (0., 0.));
    assert_eq!(sphere_hit(&behind), (false, -2., 0, Vec2::zero()));
    let missed = terms(1., -4., 0., (-3., -2.), (0., 0.));
    assert_eq!(sphere_hit(&missed), (false, 0., 0, Vec2::zero()));
    let grazed = terms(1., 0., 3., (-3., -2.), (0., 0.));
    assert_eq!(sphere_hit(&grazed), (true, 3., 0, Vec2::zero()));
    let touching = terms(-1., 4., 0., (0., 0.), (0., 2.));
    assert_eq!(sphere_hit(&touching), (true, 0., 0, Vec2::zero()));
}

fn tri(det: f64, b1d: f64, td: f64, t: f64, b1: f64, b2: f64, rest: f64) -> TriangleTerms {
    TriangleTerms {
        det: s(det),
        b1d: s(b1d),
        td: s(td),
        t: s(t),
        b1: s(b1),
        b2: s(b2),
        rest: s(rest),
    }
}

fn triangle_hit(t: &TriangleTerms) -> (bool, f64, f64, f64) {
    let (hit, at, b1, b2) = Light::intersection(t);
    (hit, f(at), f(b1), f(b2))
}

#[test]
fn triangle_tests_run_in_their_order() {
    let inf = f64::INFINITY;
    assert_eq!(triangle_hit(&tri(1., 2., 3., 4., 0.25, 0.5, 0.25)), (true, 4., 0.25, 0.5));
    assert_eq!(triangle_hit(&tri(1., 2., 3., 4., 0.25, 0.5, 0.)), (true, 4., 0.25, 0.5));
    assert_eq!(triangle_hit(&tri(0., 0., 0., 4., 0., 0., 1.)), (true, 4., 0., 0.));
    assert_eq!(triangle_hit(&tri(-1., 2., 3., 4., 0.25, 0.5, 0.25)), (false, inf, 0., -1.));
    assert_eq!(triangle_hit(&tri(-1., -2., -3., 4., 0.25, 0.5, -1.)), (false, inf, 0., -1.));
    assert_eq!(triangle_hit(&tri(1., -2., 3., 4., 0.25, 0.5, 0.25)), (false, inf, -2., 1.));
    assert_eq!(triangle_hit(&tri(1., -2., -3., 4., 0.25, 0.5, -1.)), (false, inf, -2., 1.));
    assert_eq!(triangle_hit(&tri(1., 2., -3., 4., 0.25, 0.5, 0.25)), (false, inf, 2., 1.));
    assert_eq!(triangle_hit(&tri(1., 2., 3., 4., 0.75, 0.5, -0.25)), (false, 4., 0.75, 0.5));
}

#[test]
fn undefined_triangle_terms_reject_nothing() {
    let nan = f64::NAN;
    let (hit, t, _, _) = triangle_hit(&tri(nan, nan, nan, nan, nan, nan, nan));
    assert!(hit);
    assert!(t.is_nan());
}

fn mesh_hit(terms: &Vec<TriangleTerms>) -> (bool, f64, usize, (f64, f64)) {
    let (hit, t, ix, uv) = MeshTriangle::intersection(terms);
    (hit, f(t), ix, (f(uv.x), f(uv.y)))
}

#[test]
fn mesh_is_hit_at_its_nearest_triangle() {
    let far = tri(1., 1., 1., 9., 0.1, 0.2, 0.7);
    let near = tri(1., 1., 1., 2., 0.3, 0.4, 0.3);
    let nearer_but_missed = tri(1., 1., 1., 1., 0.9, 0.9, -0.8);
    let behind = tri(-1., 1., 1., 0.5, 0.1, 0.1, 0.8);
    assert_eq!(mesh_hit(&vec![far, near, nearer_but_missed, behind]), (true, 2., 1, (0.3, 0.4)));
    assert_eq!(mesh_hit(&vec![near, far]), (true, 2., 0, (0.3, 0.4)));
    assert_eq!(mesh_hit(&vec![far]), (true, 9., 0, (0.1, 0.2)));
}

#[test]
fn mesh_that_is_missed_answers_with_infinity() {
    let inf = f64::INFINITY;
    let missed = tri(1., 1., 1., 1., 0.9, 0.9, -0.8);
    assert_eq!(mesh_hit(&Vec::new()), (false, inf, 0, (0., 0.)));
    assert_eq!(mesh_hit(&vec![missed, missed]), (false, inf, 0, (0., 0.)));
    let at_infinity = tri(1., 1., 1., inf, 0.1, 0.2, 0.7);
    assert_eq!(mesh_hit(&vec![at_infinity]), (false, inf, 0, (0., 0.)));
    let undefined = tri(1., 1., 1., f64::NAN, 0.1, 0.2, 0.7);
    assert_eq!(mesh_hit(&vec![undefined]), (false, inf, 0, (0., 0.)));
}

#[test]
fn mesh_keeps_the_first_of_equally_near_triangles() {
    let one = tri(1., 1., 1., 2., 0.1, 0.2, 0.7);
    let two = tri(1., 1., 1., 2., 0.3, 0.4, 0.3);
    assert_eq!(mesh_hit(&vec![one, two]), (true, 2., 0, (0.1, 0.2)));
    assert_eq!(mesh_hit(&vec![two, one]), (true, 2., 0, (0.3, 0.4)));
}

fn outcome(hit: bool, t: f64, idx: usize) -> (bool, Scalar, usize, Vec2) {
    (hit, s(t), idx, Vec2::new(s(t), s(-t)))
}

fn payload(t: f64, idx: usize, hit_obj: usize) -> HitPayload {
    HitPayload { tnear: s(t), idx, uv: Vec2::new(s(t), s(-t)), hit_obj }
}

#[test]
fn trace_keeps_the_nearest_hit() {
    let outcomes = vec![outcome(true, 5., 0), outcome(true, 2., 7), outcome(true, 3., 1)];
    assert_eq!(trace(&outcomes), Some(payload(2., 7, 1)));
    let outcomes = vec![outcome(true, 2., 7), outcome(true, 5., 0)];
    assert_eq!(trace(&outcomes), Some(payload(2., 7, 0)));
    let outcomes = vec![outcome(true, 5., 0), outcome(false, 2., 7)];
    assert_eq!(trace(&outcomes), Some(payload(5., 0, 0)));
}

#[test]
fn trace_keeps_the_first_of_equally_near_hits() {
    let outcomes = vec![outcome(true, 5., 0), outcome(true, 2., 1), outcome(true, 2., 2)];
    assert_eq!(trace(&outcomes), Some(payload(2., 1, 1)));
    let outcomes = vec![outcome(true, 0., 1), outcome(true, -0., 2)];
    assert_eq!(trace(&outcomes), Some(payload(0., 1, 0)));
}

#[test]
fn trace_counts_finite_hits_ahead_only() {
    assert_eq!(trace(&Vec::new()), None);
    assert_eq!(trace(&vec![outcome(false, 1., 0)]), None);
    assert_eq!(trace(&vec![outcome(true, -1., 0)]), None);
    assert_eq!(trace(&vec![outcome(true, -5e-324, 0)]), None);
    assert_eq!(trace(&vec![outcome(true, f64::INFINITY, 0)]), None);
    assert_eq!(trace(&vec![outcome(true, f64::NEG_INFINITY, 0)]), None);
    assert_eq!(trace(&vec![outcome(true, f64::NAN, 0)]), None);
    assert_eq!(trace(&vec![outcome(true, f64::MAX, 3)]), Some(payload(f64::MAX, 3, 0)));
    assert_eq!(trace(&vec![outcome(true, 0., 3)]), Some(payload(0., 3, 0)));
    assert_eq!(trace(&vec![outcome(true, -0., 3)]), Some(payload(-0., 3, 0)));
    let outcomes = vec![
        outcome(true, f64::NAN, 0),
        outcome(true, -1., 1),
        outcome(true, 4., 2),
        outcome(true, f64::NAN, 3),
    ];
    assert_eq!(trace(&outcomes), Some(payload(4., 2, 2)));
}

fn ball(material: Material) -> Primitive {
    Primitive::Sphere(Sphere {
        center: v3(0., 0., -5.),
        radius: s(1.),
        radius2: s(1.),
        material,
        ior: s(1.5),
        specular: SpecularProperties(s(25.0), s(0.8), s(0.2)),
        diffuse_color: v3(0.2, 0.2, 0.2),
    })
}

fn gallery() -> Scene {
    let mut sc = Scene::create();
    ObjectAppend::append(&mut sc, ball(Material::DiffuseAndGlossy));
    ObjectAppend::append(&mut sc, ball(Material::ReflectionAndRefraction));
    ObjectAppend::append(&mut sc, ball(Material::Reflection));
    sc
}

#[test]
fn ray_past_the_depth_limit_is_black() {
    let sc = gallery();
    let black = Radiance::Color(v3(0., 0., 0.));
    for depth in [6, 7, 100, i32::MAX] {
        assert_eq!(cast_ray(&sc, depth, None), black);
        for hit_obj in 0..3 {
            assert_eq!(cast_ray(&sc, depth, Some(payload(1., 0, hit_obj))), black);
        }
    }
    let mut shallow = gallery();
    shallow.max_depth = -1;
    assert_eq!(cast_ray(&shallow, 0, None), black);
    assert_eq!(cast_ray(&shallow, 0, Some(payload(1., 0, 0))), black);
}

#[test]
fn ray_that_hits_nothing_sees_the_background() {
    let sc = gallery();
    for depth in [i32::MIN, -1, 0, 1, 5] {
        assert_eq!(cast_ray(&sc, depth, None), Radiance::Color(sc.background_color));
    }
    let mut empty = Scene::window(4, 3);
    empty.background_color = v3(0.25, 0.5, 0.75);
    assert_eq!(cast_ray(&empty, 0, None), Radiance::Color(v3(0.25, 0.5, 0.75)));
    empty.max_depth = 0;
    assert_eq!(cast_ray(&empty, 0, None), Radiance::Color(v3(0.25, 0.5, 0.75)));
}

#[test]
fn ray_that_hits_goes_by_the_material() {
    let sc = gallery();
    for depth in [0, 3, 5] {
        let hit = payload(1., 0, 0);
        assert_eq!(cast_ray(&sc, depth, Some(hit)), Radiance::DiffuseAndGlossy { hit });
        let hit = payload(2., 0, 1);
        assert_eq!(
            cast_ray(&sc, depth, Some(hit)),
            Radiance::ReflectionAndRefraction { hit, depth: depth + 1 }
        );
        let hit = payload(3., 0, 2);
        assert_eq!(
            cast_ray(&sc, depth, Some(hit)),
            Radiance::Reflection { hit, depth: depth + 1 }
        );
    }
}

#[test]
fn bias_sign_goes_by_material_and_facing() {
    let sc = Scene::create();
    let eps = 0.00001;
    assert_eq!(f(bias(&sc, Material::ReflectionAndRefraction, s(-0.5))), -eps);
    assert_eq!(f(bias(&sc, Material::ReflectionAndRefraction, s(0.5))), eps);
    assert_eq!(f(bias(&sc, Material::Reflection, s(-0.5))), -eps);
    assert_eq!(f(bias(&sc, Material::Reflection, s(0.5))), eps);
    assert_eq!(f(bias(&sc, Material::DiffuseAndGlossy, s(-0.5))), eps);
    assert_eq!(f(bias(&sc, Material::DiffuseAndGlossy, s(0.5))), -eps);
    for level in [0., -0., f64::NAN] {
        assert_eq!(f(bias(&sc, Material::ReflectionAndRefraction, s(level))), eps);
        assert_eq!(f(bias(&sc, Material::Reflection, s(level))), eps);
        assert_eq!(f(bias(&sc, Material::DiffuseAndGlossy, s(level))), -eps);
    }
    let mut coarse = Scene::create();
    coarse.epsilon = s(0.5);
    assert_eq!(f(bias(&coarse, Material::DiffuseAndGlossy, s(-1.))), 0.5);
    assert_eq!(f(bias(&coarse, Material::Reflection, s(1.))), 0.5);
    assert_eq!(f(bias(&coarse, Material::Reflection, s(-1.))), -0.5);
}

#[test]
fn light_is_hidden_by_what_is_strictly_nearer() {
    assert!(!occluded(None, s(4.)));
    assert!(occluded(Some(s(3.)), s(4.)));
    assert!(!occluded(Some(s(4.)), s(4.)));
    assert!(!occluded(Some(s(5.)), s(4.)));
    assert!(!occluded(Some(s(f64::NAN)), s(4.)));
    assert!(!occluded(Some(s(3.)), s(f64::NAN)));
    assert!(occluded(Some(s(3.)), s(f64::INFINITY)));
}

#[test]
fn hidden_light_adds_nothing_to_either_sum() {
    let diffuse = v3(0.1, 0.2, 0.3);
    let specular = v3(0.4, 0.5, 0.6);
    let dark = (v3(0., 0., 0.), v3(0., 0., 0.));
    assert_eq!(contribution(Some(s(3.)), s(4.), diffuse, specular), dark);
    assert_eq!(contribution(Some(s(0.)), s(f64::INFINITY), diffuse, specular), dark);
    assert_eq!(contribution(None, s(4.), diffuse, specular), (diffuse, specular));
    assert_eq!(contribution(Some(s(4.)), s(4.), diffuse, specular), (diffuse, specular));
    assert_eq!(contribution(Some(s(5.)), s(4.), diffuse, specular), (diffuse, specular));
    assert_eq!(contribution(Some(s(f64::NAN)), s(4.), diffuse, specular), (diffuse, specular));
}

fn face(i: Interface) -> (f64, f64, f64) {
    (f(i.cosi), f(i.etai), f(i.etat))
}

fn refracting(dot: f64, n: Vec3, ior: f64) -> ((f64, f64, f64), Vec3) {
    let (i, normal) = refract_interface(s(dot), n, s(ior));
    (face(i), normal)
}

#[test]
fn refraction_orients_the_surface_by_the_sign_of_the_cosine() {
    let n = v3(0., 1., -0.);
    let back = v3(-0., -1., 0.);
    assert_eq!(refracting(-0.5, n, 1.5), ((0.5, 1., 1.5), n));
    assert_eq!(refracting(0.5, n, 1.5), ((0.5, 1.5, 1.), back));
    assert_eq!(refracting(0., n, 1.5), ((0., 1.5, 1.), back));
    assert_eq!(refracting(-3., n, 1.5), ((1., 1., 1.5), n));
    assert_eq!(refracting(3., n, 1.5), ((1., 1.5, 1.), back));
    let (undefined, normal) = refract_interface(s(f64::NAN), n, s(1.5));
    assert!(undefined.cosi.is_nan());
    assert_eq!((f(undefined.etai), f(undefined.etat), normal), (1.5, 1., back));
}

#[test]
fn refraction_gives_way_to_total_reflection() {
    let d = v3(0.1, 0.2, 0.3);
    assert_eq!(refract(s(-0.25), d), v3(0., 0., 0.));
    assert_eq!(refract(s(-5e-324), d), v3(0., 0., 0.));
    assert_eq!(refract(s(0.25), d), d);
    assert_eq!(refract(s(0.), d), d);
    assert_eq!(refract(s(-0.), d), d);
    assert_eq!(refract(s(f64::NAN), d), d);
}

#[test]
fn fresnel_orders_the_media_by_the_sign_of_the_cosine() {
    assert_eq!(face(fresnel_interface(s(-0.5), s(1.5))), (0.5, 1., 1.5));
    assert_eq!(face(fresnel_interface(s(0.5), s(1.5))), (0.5, 1.5, 1.));
    assert_eq!(face(fresnel_interface(s(0.), s(1.5))), (0., 1., 1.5));
    assert_eq!(face(fresnel_interface(s(-0.), s(1.5))), (0., 1., 1.5));
    assert_eq!(face(fresnel_interface(s(-7.), s(1.5))), (1., 1., 1.5));
    assert_eq!(face(fresnel_interface(s(7.), s(1.5))), (1., 1.5, 1.));
}

#[test]
fn fresnel_is_one_at_total_reflection() {
    assert_eq!(f(fresnel(s(1.), s(0.25))), 1.);
    assert_eq!(f(fresnel(s(1.5), s(0.25))), 1.);
    assert_eq!(f(fresnel(s(f64::INFINITY), s(0.25))), 1.);
    assert_eq!(f(fresnel(s(0.9999999999999999), s(0.25))), 0.25);
    assert_eq!(f(fresnel(s(0.), s(0.04))), 0.04);
    assert_eq!(f(fresnel(s(f64::NAN), s(0.25))), 0.25);
}

fn board(x: f64, y: f64) -> (f64, f64, f64) {
    let mesh = MeshTriangle {
        vertices: Vec::new(),
        material: Material::DiffuseAndGlossy,
        ior: s(1.3),
        specular: SpecularProperties(s(25.0), s(0.8), s(0.2)),
    };
    let c = mesh.eval_diffuse_color(Vec2::new(s(x), s(y)));
    (f(c.x), f(c.y), f(c.z))
}

#[test]
fn checkerboard_alternates_by_tile() {
    let dark = (0.815, 0.235, 0.031);
    let light = (0.937, 0.937, 0.231);
    assert_eq!(board(0.25, 0.25), dark);
    assert_eq!(board(0.75, 0.25), light);
    assert_eq!(board(0.25, 0.75), light);
    assert_eq!(board(0.75, 0.75), dark);
    assert_eq!(board(0.5, 0.5), dark);
    assert_eq!(board(0.5000000000000001, 0.5), light);
    assert_eq!(board(-0.75, 0.75), light);
    assert_eq!(board(f64::NAN, 0.75), light);
    assert_eq!(board(f64::NAN, f64::NAN), dark);
}

#[test]
fn stored_colour_wins_on_a_sphere() {
    let Primitive::Sphere(sphere) = ball(Material::DiffuseAndGlossy) else { unreachable!() };
    let at = Vec2::new(s(0.75), s(0.25));
    assert_eq!(sphere.eval_diffuse_color(at), v3(0.2, 0.2, 0.2));
    assert_eq!(Primitive::Sphere(sphere).eval_diffuse_color(at), v3(0.2, 0.2, 0.2));
    let mesh = Primitive::Mesh(MeshTriangle {
        vertices: Vec::new(),
        material: Material::DiffuseAndGlossy,
        ior: s(1.3),
        specular: SpecularProperties(s(25.0), s(0.8), s(0.2)),
    });
    assert_eq!(mesh.eval_diffuse_color(at), v3(0.937, 0.937, 0.231));
}
