//! The scene: what is to be drawn, and how.

use vstd::prelude::*;
use crate::ieee::Scalar;
use crate::light::Light;
use crate::sphere::Sphere;
use crate::triangle::{checkerboard, Material, MeshTriangle, Object, SpecularProperties};
use crate::vector::{Vec2, Vec3};

verus! {

/// A geometric primitive: one of the shapes a ray can hit.
#[derive(Debug, Clone, PartialEq, Eq)]
pub enum Primitive {
    Sphere(Sphere),
    Mesh(MeshTriangle),
}

impl Primitive {
    /// The material of the primitive, whichever of its elements is hit.
    pub open spec fn material(self) -> Material {
        match self {
            Primitive::Sphere(s) => s.material,
            Primitive::Mesh(m) => m.material,
        }
    }

    /// The refractive index of the primitive.
    pub open spec fn ior(self) -> Scalar {
        match self {
            Primitive::Sphere(s) => s.ior,
            Primitive::Mesh(m) => m.ior,
        }
    }

    /// Phong exponent and weights of the primitive.
    pub open spec fn specular(self) -> SpecularProperties {
        match self {
            Primitive::Sphere(s) => s.specular,
            Primitive::Mesh(m) => m.specular,
        }
    }

    /// The diffuse colour of the primitive at a texture coordinate: the
    /// stored colour of a sphere, the checkerboard on a mesh.
    pub open spec fn diffuse_color(self, tile: Vec2) -> Vec3 {
        match self {
            Primitive::Sphere(s) => s.diffuse_color,
            Primitive::Mesh(_) => checkerboard(tile),
        }
    }
}

impl Object for Primitive {
    fn eval_diffuse_color(&self, tile: Vec2) -> (r: Vec3)
        ensures
            r == self.diffuse_color(tile),
    {
        match self {
            Primitive::Sphere(s) => s.eval_diffuse_color(tile),
            Primitive::Mesh(m) => m.eval_diffuse_color(tile),
        }
    }

    fn get_material_properties(&self) -> (r: Material)
        ensures
            r == self.material(),
    {
        match self {
            Primitive::Sphere(s) => s.get_material_properties(),
            Primitive::Mesh(m) => m.get_material_properties(),
        }
    }

    fn get_ior(&self) -> (r: Scalar)
        ensures
            r == self.ior(),
    {
        match self {
            Primitive::Sphere(s) => s.get_ior(),
            Primitive::Mesh(m) => m.get_ior(),
        }
    }

    fn get_specular_properties(&self) -> (r: SpecularProperties)
        ensures
            r == self.specular(),
    {
        match self {
            Primitive::Sphere(s) => s.get_specular_properties(),
            Primitive::Mesh(m) => m.get_specular_properties(),
        }
    }
}

/// Image size, camera, recursion limit, and the primitives and lights.
///
/// The two lists only grow: entries are appended and never removed.
pub struct Scene {
    pub width: i32,
    pub height: i32,
    /// Vertical field of view, in degrees.
    pub fov: Scalar,
    pub background_color: Vec3,
    /// Deepest recursion level at which a ray is still followed.
    pub max_depth: i16,
    /// Distance by which the origin of a secondary ray is moved off the
    /// surface.
    pub epsilon: Scalar,
    objects: Vec<Primitive>,
    lights: Vec<Light>,
}

/// A scene as contracts see it.
pub struct SceneView {
    pub width: i32,
    pub height: i32,
    pub fov: Scalar,
    pub background_color: Vec3,
    pub max_depth: i16,
    pub epsilon: Scalar,
    /// The primitives, in the order in which they were appended.
    pub objects: Seq<Primitive>,
    /// The lights, in the order in which they were appended.
    pub lights: Seq<Light>,
}

impl View for Scene {
    type V = SceneView;

    closed spec fn view(&self) -> SceneView {
        SceneView {
            width: self.width,
            height: self.height,
            fov: self.fov,
            background_color: self.background_color,
            max_depth: self.max_depth,
            epsilon: self.epsilon,
            objects: self.objects@,
            lights: self.lights@,
        }
    }
}

/// Pattern of 90, the field of view of a new scene in degrees.
pub const DEFAULT_FOV_BITS: u64 = 0x4056_8000_0000_0000;

/// Pattern of 0.235294, red of the background of a new scene.
pub const DEFAULT_BACKGROUND_RED_BITS: u64 = 0x3FCE_1E1D_2178_F68C;

/// Pattern of 0.67451, green of the background of a new scene.
pub const DEFAULT_BACKGROUND_GREEN_BITS: u64 = 0x3FE5_9595_FEDA_6613;

/// Pattern of 0.843137, blue of the background of a new scene.
pub const DEFAULT_BACKGROUND_BLUE_BITS: u64 = 0x3FEA_FAFA_7221_858C;

/// Pattern of 0.00001, the epsilon of a new scene.
pub const DEFAULT_EPSILON_BITS: u64 = 0x3EE4_F8B5_88E3_68F1;

/// The depth limit of a new scene.
pub const DEFAULT_MAX_DEPTH: i16 = 5;

/// A scene can take a primitive.
pub trait ObjectAppend {
    /// Appends `obj` to the primitives.
    fn append(&mut self, obj: Primitive);
}

/// A scene can take a light.
pub trait LightAppend {
    /// Appends `light` to the lights.
    fn append(&mut self, light: Light);
}

impl ObjectAppend for Scene {
    fn append(&mut self, obj: Primitive)
        ensures
            final(self)@ == (SceneView {
                objects: old(self)@.objects.push(obj),
                ..old(self)@
            }),
    {
        self.objects.push(obj);
    }
}

impl LightAppend for Scene {
    fn append(&mut self, light: Light)
        ensures
            final(self)@ == (SceneView { lights: old(self)@.lights.push(light), ..old(self)@ }),
    {
        self.lights.push(light);
    }
}

impl Scene {
    /// A scene of the given settings, primitives and lights.
    pub fn new(
        width: i32,
        height: i32,
        fov: Scalar,
        background_color: Vec3,
        max_depth: i16,
        epsilon: Scalar,
        objects: Vec<Primitive>,
        lights: Vec<Light>,
    ) -> (r: Scene)
        ensures
            r@ == (SceneView {
                width,
                height,
                fov,
                background_color,
                max_depth,
                epsilon,
                objects: objects@,
                lights: lights@,
            }),
    {
        Scene { width, height, fov, background_color, max_depth, epsilon, objects, lights }
    }

    /// The settings of a new scene of the given size, without primitives and
    /// lights: a field of view of 90 degrees, a sky-blue background, a depth
    /// limit of 5 and an epsilon of 0.00001.
    pub open spec fn default_view(width: i32, height: i32) -> SceneView {
        SceneView {
            width,
            height,
            fov: Scalar { bits: DEFAULT_FOV_BITS },
            background_color: Vec3 {
                x: Scalar { bits: DEFAULT_BACKGROUND_RED_BITS },
                y: Scalar { bits: DEFAULT_BACKGROUND_GREEN_BITS },
                z: Scalar { bits: DEFAULT_BACKGROUND_BLUE_BITS },
            },
            max_depth: DEFAULT_MAX_DEPTH,
            epsilon: Scalar { bits: DEFAULT_EPSILON_BITS },
            objects: Seq::empty(),
            lights: Seq::empty(),
        }
    }

    /// An empty scene of 1280 by 960 pixels with the default settings.
    pub fn create() -> (r: Scene)
        ensures
            r@ == Scene::default_view(1280, 960),
    {
        Scene::window(1280, 960)
    }

    /// An empty scene of the given size with the default settings.
    pub fn window(width: i32, height: i32) -> (r: Scene)
        ensures
            r@ == Scene::default_view(width, height),
    {
        Scene::new(
            width,
            height,
            Scalar::from_bits(DEFAULT_FOV_BITS),
            Vec3::new(
                Scalar::from_bits(DEFAULT_BACKGROUND_RED_BITS),
                Scalar::from_bits(DEFAULT_BACKGROUND_GREEN_BITS),
                Scalar::from_bits(DEFAULT_BACKGROUND_BLUE_BITS),
            ),
            DEFAULT_MAX_DEPTH,
            Scalar::from_bits(DEFAULT_EPSILON_BITS),
            Vec::new(),
            Vec::new(),
        )
    }

    /// The primitives, in the order in which they were appended.
    pub fn get_obj(&self) -> (r: &Vec<Primitive>)
        ensures
            r@ == self@.objects,
    {
        &self.objects
    }

    /// Whether a ray at recursion level `depth` is past the depth limit, and
    /// so followed no further.
    pub fn past_depth_limit(&self, depth: i32) -> (r: bool)
        ensures
            r == (depth > self@.max_depth),
    {
        depth > self.max_depth as i32
    }

    /// The colour of a ray that leaves the scene.
    pub fn get_background_color(&self) -> (r: Vec3)
        ensures
            r == self@.background_color,
    {
        self.background_color
    }

    /// Width of the image in pixels.
    pub fn get_width(&self) -> (r: i32)
        ensures
            r == self@.width,
    {
        self.width
    }

    /// Height of the image in pixels.
    pub fn get_height(&self) -> (r: i32)
        ensures
            r == self@.height,
    {
        self.height
    }

    /// The number of pixels of the image, `width * height`, where neither is
    /// negative and the product fits.
    pub fn pixel_count(&self) -> (r: Option<usize>)
        ensures
            r is Some <==> self@.width >= 0 && self@.height >= 0 && self@.width * self@.height
                <= usize::MAX,
            r matches Some(n) ==> n == self@.width * self@.height,
    {
        if self.width < 0 || self.height < 0 {
            return None;
        }
        let w: u64 = self.width as u64;
        let h: u64 = self.height as u64;
        assert(w * h <= 0x7FFF_FFFF * 0x7FFF_FFFF) by (nonlinear_arith)
            requires
                w <= 0x7FFF_FFFF,
                h <= 0x7FFF_FFFF,
        ;
        let n: u64 = w * h;
        if n > usize::MAX as u64 {
            None
        } else {
            Some(n as usize)
        }
    }

    /// Column and row of the pixel that the image holds at place `m`: the
    /// image is stored row by row from the top, so place `m` is column
    /// `m % width` of row `m / width`. Past the last pixel there is none.
    pub fn pixel_at(&self, m: usize) -> (r: Option<(i32, i32)>)
        ensures
            r is Some <==> self@.width >= 0 && self@.height >= 0 && m < self@.width
                * self@.height,
            r matches Some(at) ==> {
                &&& 0 <= at.0 < self@.width
                &&& 0 <= at.1 < self@.height
                &&& m == at.1 * self@.width + at.0
            },
    {
        if self.width < 0 || self.height < 0 {
            return None;
        }
        let width: u64 = self.width as u64;
        let height: u64 = self.height as u64;
        assert(width * height <= 0x7FFF_FFFF * 0x7FFF_FFFF) by (nonlinear_arith)
            requires
                width <= 0x7FFF_FFFF,
                height <= 0x7FFF_FFFF,
        ;
        if m as u64 >= width * height {
            return None;
        }
        let w: usize = self.width as usize;
        assert(w > 0) by (nonlinear_arith)
            requires
                m < self@.width * self@.height,
                w == self@.width,
                self@.height >= 0,
        ;
        let column: usize = m % w;
        let row: usize = m / w;
        assert(row < self@.height && m == row * w + column) by (nonlinear_arith)
            requires
                m < w * self@.height,
                row == m / w,
                column == m % w,
                w > 0,
        ;
        Some((column as i32, row as i32))
    }

    /// The distance by which secondary rays start off the surface.
    pub fn get_epsilon(&self) -> (r: Scalar)
        ensures
            r == self@.epsilon,
    {
        self.epsilon
    }

    /// The lights, in the order in which they were appended.
    pub fn get_light(&self) -> (r: &Vec<Light>)
        ensures
            r@ == self@.lights,
    {
        &self.lights
    }
}

} // verus!
