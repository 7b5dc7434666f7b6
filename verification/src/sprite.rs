//! The sprite/normal-map front end: a fixed camera with perspective or
//! orthographic projection, single-bounce shading of a mesh, and the
//! two-image bake (normal map and diffuse map).

use vstd::prelude::*;
use crate::fx::{Fx, fx_add, fx_sub, fx_mul, fx_div, fx_neg, FX_ONE_RAW, FX_RAW_BOUND};
use crate::trig::{fx_degrees_to_radians, fx_tan};
use crate::vec3::{Vec3, V3, v3_add, v3_sub, v3_neg, v3_scale, v3_div_s, v3_cross, v3_unit};
use crate::ray::{Ray, RayV};
use crate::color::{Color, C4, c_of_u8};
use crate::material::mat_color;
use crate::objects::{World, PrimV, world_hit};
use crate::hit::HitV;

verus! {

/// The projection mode, each with its viewport scale factor.
#[derive(Clone, Copy, Debug, PartialEq, Eq, Structural)]
pub enum Perspective {
    Perspective { scale: Fx },
    Orthographic { scale: Fx },
}

/// The model of the projection mode.
pub enum PerspectiveV {
    Perspective { scale: int },
    Orthographic { scale: int },
}

impl View for Perspective {
    type V = PerspectiveV;

    open spec fn view(&self) -> PerspectiveV {
        match self {
            Perspective::Perspective { scale } => PerspectiveV::Perspective { scale: scale@ },
            Perspective::Orthographic { scale } => PerspectiveV::Orthographic { scale: scale@ },
        }
    }
}

/// The user-facing camera configuration of the sprite renderer.
#[derive(Clone, Copy, Debug, PartialEq, Eq, Structural)]
pub struct CameraSettings {
    pub v_fov: Fx,
    pub eye: Vec3,
    pub target: Vec3,
    pub up_dir: Vec3,
    pub perspective: Perspective,
    pub focal_len: Fx,
}

/// The model of the camera settings.
pub struct CameraSettingsV {
    pub v_fov: int,
    pub eye: V3,
    pub target: V3,
    pub up_dir: V3,
    pub perspective: PerspectiveV,
    pub focal_len: int,
}

impl View for CameraSettings {
    type V = CameraSettingsV;

    open spec fn view(&self) -> CameraSettingsV {
        CameraSettingsV {
            v_fov: self.v_fov@,
            eye: self.eye@,
            target: self.target@,
            up_dir: self.up_dir@,
            perspective: self.perspective@,
            focal_len: self.focal_len@,
        }
    }
}

/// The model of the derived sprite camera.
pub struct SpriteCameraV {
    pub lower_left_corner: V3,
    pub horizontal: V3,
    pub vertical: V3,
    pub perspective: PerspectiveV,
    pub origin: V3,
    pub normal: V3,
}

/// The derived sprite camera for the given settings and aspect ratio; the
/// orthographic mode looks along a negated focal distance.
pub open spec fn sprite_camera_new(cs: CameraSettingsV, aspect_ratio: int) -> SpriteCameraV {
    let theta = fx_degrees_to_radians(cs.v_fov);
    let h = fx_tan(fx_div(theta, 2 * FX_ONE_RAW as int));
    let viewport_height = fx_mul(2 * FX_ONE_RAW as int, h);
    let viewport_width = fx_mul(aspect_ratio, viewport_height);
    let focal_len = match cs.perspective {
        PerspectiveV::Perspective { scale } => cs.focal_len,
        PerspectiveV::Orthographic { scale } => fx_neg(cs.focal_len),
    };
    let scale = match cs.perspective {
        PerspectiveV::Perspective { scale } => scale,
        PerspectiveV::Orthographic { scale } => scale,
    };
    let w = v3_unit(v3_sub(cs.eye, cs.target));
    let u = v3_unit(v3_cross(cs.up_dir, w));
    let v = v3_cross(w, u);
    let horizontal = v3_scale(u, fx_mul(scale, viewport_width));
    let vertical = v3_scale(v, fx_mul(scale, viewport_height));
    let focal_norm = v3_scale(w, focal_len);
    let lower_left_corner = v3_sub(
        v3_sub(v3_sub(cs.eye, v3_div_s(horizontal, 2 * FX_ONE_RAW as int)), v3_div_s(vertical, 2
            * FX_ONE_RAW as int)),
        focal_norm,
    );
    SpriteCameraV {
        lower_left_corner,
        horizontal,
        vertical,
        perspective: cs.perspective,
        origin: cs.eye,
        normal: v3_neg(w),
    }
}

/// The sprite camera's ray for image-plane coordinates `(u, v)`: rays
/// converge on the eye in perspective mode and share one direction in
/// orthographic mode.
pub open spec fn sprite_camera_ray(c: SpriteCameraV, u: int, v: int) -> RayV {
    let plane_point = v3_sub(
        v3_add(v3_add(c.lower_left_corner, v3_scale(c.horizontal, u)), v3_scale(c.vertical, v)),
        c.origin,
    );
    match c.perspective {
        PerspectiveV::Perspective { scale } => RayV { origin: c.origin, direction: plane_point },
        PerspectiveV::Orthographic { scale } => RayV { origin: plane_point, direction: c.normal },
    }
}

/// The derived, immutable sprite camera.
pub struct Camera {
    lower_left_corner: Vec3,
    horizontal: Vec3,
    vertical: Vec3,
    perspective: Perspective,
    origin: Vec3,
    normal: Vec3,
}

impl View for Camera {
    type V = SpriteCameraV;

    closed spec fn view(&self) -> SpriteCameraV {
        SpriteCameraV {
            lower_left_corner: self.lower_left_corner@,
            horizontal: self.horizontal@,
            vertical: self.vertical@,
            perspective: self.perspective@,
            origin: self.origin@,
            normal: self.normal@,
        }
    }
}

impl CameraSettings {
    /// Derive the camera for this configuration and aspect ratio.
    pub fn into_camera(&self, aspect_ratio: Fx) -> (r: Camera)
        ensures
            r@ == sprite_camera_new(self@, aspect_ratio@),
    {
        Camera::new(aspect_ratio, *self)
    }
}

impl Camera {
    fn new(aspect_ratio: Fx, cs: CameraSettings) -> (r: Camera)
        ensures
            r@ == sprite_camera_new(cs@, aspect_ratio@),
    {
        let two = Fx::from_int(2);
        let theta = crate::trig::degrees_to_radians(cs.v_fov);
        let h = theta.div(two).ntan();
        let viewport_height = two.mul(h);
        let viewport_width = aspect_ratio.mul(viewport_height);
        let (focal_len, scale) = match cs.perspective {
            Perspective::Perspective { scale } => (cs.focal_len, scale),
            Perspective::Orthographic { scale } => (cs.focal_len.neg(), scale),
        };
        let w = cs.eye.sub(cs.target).unit_vector();
        let u = cs.up_dir.cross(w).unit_vector();
        let v = w.cross(u);
        let origin = cs.eye;
        let horizontal = u.scale(scale.mul(viewport_width));
        let vertical = v.scale(scale.mul(viewport_height));
        let focal_norm = w.scale(focal_len);
        let lower_left_corner = origin.sub(horizontal.div_s(two)).sub(vertical.div_s(two)).sub(
            focal_norm,
        );
        Camera {
            lower_left_corner,
            horizontal,
            vertical,
            perspective: cs.perspective,
            origin,
            normal: w.neg(),
        }
    }

    /// The ray for normalized image-plane coordinates `(u, v)`.
    pub fn ray(&self, u: Fx, v: Fx) -> (r: Ray)
        ensures
            r@ == sprite_camera_ray(self@, u@, v@),
    {
        let plane_point = self.lower_left_corner.add(self.horizontal.scale(u)).add(
            self.vertical.scale(v),
        ).sub(self.origin);
        match self.perspective {
            Perspective::Perspective { .. } => Ray::new(self.origin, plane_point),
            Perspective::Orthographic { .. } => Ray::new(plane_point, self.normal),
        }
    }
}

/// The two shading passes of the sprite renderer.
#[derive(Clone, Copy, Debug, PartialEq, Eq, Structural)]
pub enum ShadingModes {
    Diffuse,
    Normal,
}

/// The fully transparent miss color of the sprite passes.
pub open spec fn sprite_miss_v() -> C4 {
    C4 { r: 0, g: 0, b: 0, a: 0 }
}

/// Self-intersection guard of the sprite passes.
pub open spec fn sprite_t_min_v() -> int {
    fx_div(1 * (FX_ONE_RAW as int), 10000 * (FX_ONE_RAW as int))
}

/// Single-bounce shading: the flat material color in the diffuse pass, the
/// corrected normal remapped from `[-1, 1]` to `[0, 1]` in the normal pass,
/// and full transparency on a miss.
pub open spec fn sprite_ray_color_spec(r: RayV, world: Seq<PrimV>, mode: ShadingModes) -> C4 {
    match world_hit(world, r, sprite_t_min_v(), FX_RAW_BOUND as int) {
        Some(hr) => match mode {
            ShadingModes::Diffuse => mat_color(hr.material),
            ShadingModes::Normal => {
                let one3 = V3 {
                    x: FX_ONE_RAW as int,
                    y: FX_ONE_RAW as int,
                    z: FX_ONE_RAW as int,
                };
                let n = v3_div_s(v3_add(hr.normal, one3), 2 * FX_ONE_RAW as int);
                C4 { r: n.x, g: n.y, b: n.z, a: c_of_u8(255) }
            },
        },
        None => sprite_miss_v(),
    }
}

/// Shade one sprite ray.
pub fn sprite_ray_color(ray: &Ray, world: &World, shading_mode: ShadingModes) -> (r: Color)
    ensures
        r@ == sprite_ray_color_spec(ray@, world@, shading_mode),
{
    let min_hit = Fx::fraction(1, 10000);
    match world.hit(ray, min_hit, Fx::infinity()) {
        Some(hr) => match shading_mode {
            ShadingModes::Diffuse => hr.material.color(),
            ShadingModes::Normal => {
                let one = Fx::one();
                // Remap x, y and z from -1..1 to 0..1.
                let normal = hr.normal.add(Vec3::new(one, one, one)).div_s(Fx::from_int(2));
                Color::from_vec3(normal, 255)
            },
        },
        None => Color::new(Fx::zero(), Fx::zero(), Fx::zero(), Fx::zero()),
    }
}

/// The post-processing of one sprite pixel: in the normal pass a
/// transparent miss may be blackened opaque; the diffuse pass halves the
/// color channels.
pub open spec fn sprite_finish(c: C4, mode: ShadingModes, blacken: bool) -> C4 {
    match mode {
        ShadingModes::Normal => if c.a == 0 && blacken {
            C4 { r: 0, g: 0, b: 0, a: FX_ONE_RAW as int }
        } else {
            c
        },
        ShadingModes::Diffuse => C4 {
            r: fx_div(c.r, 2 * FX_ONE_RAW as int),
            g: fx_div(c.g, 2 * FX_ONE_RAW as int),
            b: fx_div(c.b, 2 * FX_ONE_RAW as int),
            a: c.a,
        },
    }
}

/// The pixels are exactly the sprite pass over the given scene and
/// settings, row-major with the vertical axis flipped, post-processed.
pub open spec fn sprite_image_ok(
    pixels: Seq<C4>,
    world: Seq<PrimV>,
    cs: CameraSettingsV,
    width: int,
    height: int,
    mode: ShadingModes,
    blacken: bool,
) -> bool {
    let aspect = fx_div(width * (FX_ONE_RAW as int), height * (FX_ONE_RAW as int));
    let cam = sprite_camera_new(cs, aspect);
    &&& pixels.len() == width * height
    &&& forall|k: int|
        0 <= k < pixels.len() ==> pixels[k] == sprite_finish(
            crate::render::sprite_pixel_spec(
                world,
                cam,
                crate::render::flip_coord(width, height, k).0 as int,
                crate::render::flip_coord(width, height, k).1 as int,
                width,
                height,
                mode,
            ),
            mode,
            blacken,
        )
}

/// The sprite generator: image size, shading pass, camera configuration
/// and the mesh file the scene is loaded from.
pub struct SpriteRenderer {
    pub shading_mode: ShadingModes,
    pub image_width: u32,
    pub image_height: u32,
    pub camera_settings: CameraSettings,
    pub mesh_file: String,
    pub blacken_normal_map: bool,
}

impl SpriteRenderer {
    /// Render one sprite pass over the given scene: one camera ray per
    /// pixel, single-bounce shading, vertical flip and post-processing.
    pub fn render(&self, world: &World) -> (img: crate::render::Image)
        requires
            self.image_width >= 1,
            self.image_height >= 1,
        ensures
            img.width == self.image_width,
            img.height == self.image_height,
            sprite_image_ok(
                crate::render::image_model(img.pixels@),
                world@,
                self.camera_settings@,
                self.image_width as int,
                self.image_height as int,
                self.shading_mode,
                self.blacken_normal_map,
            ),
    {
        let width = self.image_width;
        let height = self.image_height;
        let aspect_ratio = Fx::from_u32(width).div(Fx::from_u32(height));
        let camera = self.camera_settings.into_camera(aspect_ratio);
        let raw = crate::render::render_sprite_pixels(
            world,
            &camera,
            width,
            height,
            self.shading_mode,
        );
        let mut pixels: Vec<Color> = Vec::new();
        let n = raw.len();
        let mut k: usize = 0;
        while k < n
            invariant
                k <= n,
                n == raw@.len(),
                pixels@.len() == k,
                forall|m: int|
                    0 <= m < k ==> pixels@[m]@ == sprite_finish(
                        raw@[m]@,
                        self.shading_mode,
                        self.blacken_normal_map,
                    ),
        decreases n - k,
        {
            let c = raw[k];
            let finished = match self.shading_mode {
                ShadingModes::Normal => {
                    if c.a.raw() == 0 && self.blacken_normal_map {
                        Color::new(Fx::zero(), Fx::zero(), Fx::zero(), Fx::one())
                    } else {
                        c
                    }
                },
                ShadingModes::Diffuse => {
                    let two = Fx::from_int(2);
                    Color::new(c.r.div(two), c.g.div(two), c.b.div(two), c.a)
                },
            };
            pixels.push(finished);
            k = k + 1;
        }
        crate::render::Image { width, height, pixels }
    }
}

/// A ray through an empty scene misses, so every sprite pixel of an empty
/// scene is the fully transparent miss color.
pub proof fn lemma_empty_scene_transparent(r: RayV, mode: ShadingModes)
    ensures
        sprite_ray_color_spec(r, Seq::<PrimV>::empty(), mode) == sprite_miss_v(),
{
}

} // verus!
