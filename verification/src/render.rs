//! The integrator and the data-parallel render loop.
//!
//! `ray_color` resolves one ray to a color by alternating nearest-hit lookup
//! and material scattering until the depth bound or a miss ends the
//! recursion.  The render loop draws jittered camera rays per pixel from a
//! per-pixel seeded sampler, so a whole pass is an exact function of scene,
//! camera, image size, sample count, depth and seed: pixels may be computed
//! in any order and the output is the same.

use vstd::prelude::*;
use rayon::iter::{IntoParallelRefIterator, ParallelIterator};
use crate::fx::{Fx, fx_add, fx_sub, fx_mul, fx_div, FX_ONE_RAW, FX_RAW_BOUND};
use crate::vec3::{Vec3, V3, v3_add, v3_scale, v3_unit};
use crate::ray::{Ray, RayV};
use crate::color::{Color, C4, c_add, c_mul, c_div_int, c_of_u8, byte_of};
use crate::material::scatter_spec;
use crate::objects::{World, PrimV, world_hit, world_materials_wf, lemma_world_hit_material_wf};
use crate::camera::{Camera, CameraV, camera_ray};
use crate::sprite::{ShadingModes, sprite_ray_color, sprite_ray_color_spec, sprite_camera_ray};
use crate::rng::{Rng, rng_step, rng_unit_of};

verus! {

/// The opaque black returned on depth exhaustion or absorption.
pub open spec fn miss_color_v() -> C4 {
    C4 { r: 0, g: 0, b: 0, a: FX_ONE_RAW as int }
}

/// Self-intersection guard of the path tracer.
pub open spec fn trace_t_min_v() -> int {
    fx_div(1 * (FX_ONE_RAW as int), 1000 * (FX_ONE_RAW as int))
}

/// The sky gradient: interpolate white to sky blue on the unit direction's
/// vertical component remapped from `[-1, 1]` to `[0, 1]`; fully opaque.
pub open spec fn sky_color_spec(r: RayV) -> C4 {
    let unit_dir = v3_unit(r.direction);
    let t = fx_mul(fx_div(1 * (FX_ONE_RAW as int), 2 * (FX_ONE_RAW as int)), fx_add(unit_dir.y,
        FX_ONE_RAW as int));
    let white = V3 { x: FX_ONE_RAW as int, y: FX_ONE_RAW as int, z: FX_ONE_RAW as int };
    let blue = V3 {
        x: fx_div(1 * (FX_ONE_RAW as int), 2 * (FX_ONE_RAW as int)),
        y: fx_div(7 * (FX_ONE_RAW as int), 10 * (FX_ONE_RAW as int)),
        z: FX_ONE_RAW as int,
    };
    let v_color = v3_add(v3_scale(white, fx_sub(FX_ONE_RAW as int, t)), v3_scale(blue, t));
    C4 { r: v_color.x, g: v_color.y, b: v_color.z, a: c_of_u8(255) }
}

/// Force a color opaque.
pub open spec fn c4_opaque(c: C4) -> C4 {
    C4 { a: FX_ONE_RAW as int, ..c }
}

/// The color of one ray and the sampler state after it: black at depth
/// zero, attenuated recursion on a scatter, black on absorption, and the
/// sky gradient on a miss.
pub open spec fn ray_color_spec(r: RayV, world: Seq<PrimV>, depth: int, s: int) -> (C4, int)
    decreases depth,
{
    if depth <= 0 {
        (miss_color_v(), s)
    } else {
        match world_hit(world, r, trace_t_min_v(), FX_RAW_BOUND as int) {
            Some(hr) => {
                let sc = scatter_spec(hr.material, r, hr, s);
                match sc.0 {
                    Some((attenuation, scattered)) => {
                        let rec = ray_color_spec(scattered, world, depth - 1, sc.1);
                        (c4_opaque(c_mul(attenuation, rec.0)), rec.1)
                    },
                    None => (miss_color_v(), sc.1),
                }
            },
            None => (sky_color_spec(r), s),
        }
    }
}

/// Depth exhaustion returns the miss color whatever the scene holds.
pub proof fn lemma_depth_zero_is_miss(r: RayV, world: Seq<PrimV>, depth: int, s: int)
    requires
        depth <= 0,
    ensures
        ray_color_spec(r, world, depth, s) == (miss_color_v(), s),
{
}

/// Every color the integrator returns is fully opaque: the miss color and
/// the sky are opaque, and a scattered color has its alpha forced to one.
pub proof fn lemma_ray_color_opaque(r: RayV, world: Seq<PrimV>, depth: int, s: int)
    ensures
        ray_color_spec(r, world, depth, s).0.a == FX_ONE_RAW as int,
{
    assert(c_of_u8(255) == FX_ONE_RAW as int) by {
        vstd::arithmetic::div_mod::lemma_div_multiples_vanish(
            FX_ONE_RAW as int,
            255 * (FX_ONE_RAW as int),
        );
    }
}

/// A ray whose unit direction has its vertical component inside
/// `[-1, 1]`; large directions keep this, but the unit vector of a
/// near-zero direction can overshoot in fixed point.
pub open spec fn sky_dir_ok(r: RayV) -> bool {
    -(FX_ONE_RAW as int) <= v3_unit(r.direction).y <= FX_ONE_RAW as int
}

/// The sky gradient has all channels in `[0, 1]` and is opaque, whenever
/// the unit direction's vertical component is in `[-1, 1]`.
pub proof fn lemma_sky_color_in_range(r: RayV)
    requires
        sky_dir_ok(r),
    ensures
        ({
            let c = sky_color_spec(r);
            &&& 0 <= c.r <= FX_ONE_RAW as int
            &&& 0 <= c.g <= FX_ONE_RAW as int
            &&& 0 <= c.b <= FX_ONE_RAW as int
            &&& c.a == FX_ONE_RAW as int
        }),
{
    let one = FX_ONE_RAW as int;
    let y = v3_unit(r.direction).y;
    crate::fx::lemma_half_value();
    let yp = fx_add(y, one);
    assert(0 <= yp <= 2 * one);
    let t = fx_mul(fx_div(1 * one, 2 * one), yp);
    assert(0 <= 32768 * yp <= 4294967296) by (nonlinear_arith)
        requires
            0 <= yp,
            yp <= 131072;
    vstd::arithmetic::div_mod::lemma_div_pos_is_pos(32768 * yp, one);
    vstd::arithmetic::div_mod::lemma_div_is_ordered(32768 * yp, 4294967296, one);
    assert(0 <= t <= one);
    let st = fx_sub(one, t);
    assert(0 <= st <= one);
    crate::fx::lemma_fx_mul_comm(one, st);
    crate::fx::lemma_fx_mul_one(st);
    crate::fx::lemma_frac_in_unit(1, 2);
    crate::fx::lemma_frac_in_unit(7, 10);
    crate::fx::lemma_fx_mul_le(fx_div(1 * one, 2 * one), t);
    crate::fx::lemma_fx_mul_le(fx_div(7 * one, 10 * one), t);
    crate::fx::lemma_fx_mul_le(one, t);
    assert(c_of_u8(255) == one) by {
        vstd::arithmetic::div_mod::lemma_div_multiples_vanish(one, 255 * one);
    }
}

/// Whether every miss the integrator's recursion can reach has a bounded
/// unit direction, so its sky sample stays in range.
pub open spec fn rc_misses_bounded(r: RayV, world: Seq<PrimV>, depth: int, s: int) -> bool
    decreases depth,
{
    if depth <= 0 {
        true
    } else {
        match world_hit(world, r, trace_t_min_v(), FX_RAW_BOUND as int) {
            Some(hr) => {
                let sc = scatter_spec(hr.material, r, hr, s);
                match sc.0 {
                    Some((attenuation, scattered)) => rc_misses_bounded(
                        scattered,
                        world,
                        depth - 1,
                        sc.1,
                    ),
                    None => true,
                }
            },
            None => sky_dir_ok(r),
        }
    }
}

/// The integrator's channels lie in `[0, 1]` and its alpha is one,
/// whenever every primitive's albedo is in range and every reachable miss
/// has a bounded unit direction: the miss color is in range, the sky is by
/// the bound, and each bounce multiplies by an attenuation in `[0, 1]`.
#[verifier::rlimit(60)]
pub proof fn lemma_ray_color_channels_in_range(r: RayV, world: Seq<PrimV>, depth: int, s: int)
    requires
        world_materials_wf(world),
        rc_misses_bounded(r, world, depth, s),
    ensures
        ({
            let c = ray_color_spec(r, world, depth, s).0;
            &&& 0 <= c.r <= FX_ONE_RAW as int
            &&& 0 <= c.g <= FX_ONE_RAW as int
            &&& 0 <= c.b <= FX_ONE_RAW as int
            &&& c.a == FX_ONE_RAW as int
        }),
    decreases depth,
{
    if depth <= 0 {
    } else {
        match world_hit(world, r, trace_t_min_v(), FX_RAW_BOUND as int) {
            Some(hr) => {
                lemma_world_hit_material_wf(world, r, trace_t_min_v(), FX_RAW_BOUND as int);
                crate::material::lemma_scatter_attenuation_in_range(hr.material, r, hr, s);
                let sc = scatter_spec(hr.material, r, hr, s);
                match sc.0 {
                    Some((attenuation, scattered)) => {
                        lemma_ray_color_channels_in_range(scattered, world, depth - 1, sc.1);
                        let rec = ray_color_spec(scattered, world, depth - 1, sc.1);
                        crate::fx::lemma_fx_mul_le(attenuation.r, rec.0.r);
                        crate::fx::lemma_fx_mul_le(attenuation.g, rec.0.g);
                        crate::fx::lemma_fx_mul_le(attenuation.b, rec.0.b);
                    },
                    None => {},
                }
            },
            None => {
                lemma_sky_color_in_range(r);
            },
        }
    }
}

/// The sky gradient for a ray that missed all geometry.
fn sky_color(ray: &Ray) -> (r: Color)
    ensures
        r@ == sky_color_spec(ray@),
{
    let one = Fx::one();
    let unit_dir = ray.direction().unit_vector();
    let t = Fx::fraction(1, 2).mul(unit_dir.y.add(one));
    let white = Vec3::new(one, one, one);
    let blue = Vec3::new(Fx::fraction(1, 2), Fx::fraction(7, 10), one);
    let v_color = white.scale(one.sub(t)).add(blue.scale(t));
    Color::from_vec3(v_color, 255)
}

/// Resolve one ray to a color, depth-bounded.
pub fn ray_color(ray: &Ray, world: &World, depth: i32, rng: &mut Rng) -> (r: Color)
    ensures
        r@ == ray_color_spec(ray@, world@, depth as int, old(rng)@).0,
        final(rng)@ == ray_color_spec(ray@, world@, depth as int, old(rng)@).1,
    decreases depth,
{
    let zero = Fx::zero();
    let one = Fx::one();
    let miss_color = Color::new(zero, zero, zero, one);
    if depth <= 0 {
        return miss_color;
    }
    let min_hit = Fx::fraction(1, 1000);
    match world.hit(ray, min_hit, Fx::infinity()) {
        Some(hr) => match hr.material.scatter(ray, &hr, rng) {
            Some((attenuation, scattered)) => {
                let mut col = attenuation.mul(ray_color(&scattered, world, depth - 1, rng));
                col.a = one;
                col
            },
            None => miss_color,
        },
        None => sky_color(ray),
    }
}

/// The multiplier that spreads pixel indices across seed space.
pub const SEED_SPREAD: u64 = 0x9E3779B97F4A7C15;

/// The sampler state a pixel starts from: the render seed offset by the
/// pixel's index, spread by an odd constant.
pub open spec fn pixel_state(seed: int, i: int, j: int, width: int) -> int {
    (seed + (j * width + i) * (SEED_SPREAD as int)) % 0x10000000000000000
}

/// The sampler of the pixel at `(i, j)`.
fn pixel_rng(seed: u64, i: u32, j: u32, width: u32) -> (r: Rng)
    ensures
        r@ == pixel_state(seed as int, i as int, j as int, width as int),
{
    proof {
        assert((j as int) * (width as int) + (i as int) + 1 < 0x10000000000000000)
            by (nonlinear_arith)
            requires
                0 <= (j as int),
                (j as int) <= 0xFFFFFFFF,
                0 <= (width as int),
                (width as int) <= 0xFFFFFFFF,
                0 <= (i as int),
                (i as int) <= 0xFFFFFFFF;
    }
    let idx: u128 = (j as u128) * (width as u128) + (i as u128);
    proof {
        assert((idx as int) * (SEED_SPREAD as int) + 0x10000000000000000 < (
        0x100000000000000000000000000000000 as int)) by (nonlinear_arith)
            requires
                0 <= (idx as int),
                (idx as int) < 0x10000000000000000;
    }
    let mixed: u128 = (seed as u128) + idx * (SEED_SPREAD as u128);
    proof {
        assert(((seed as int) + (idx as int) * (SEED_SPREAD as int)) % 0x10000000000000000 == ((
        seed as int) + ((j as int) * (width as int) + (i as int)) * (SEED_SPREAD as int))
            % 0x10000000000000000);
    }
    Rng::new((mixed % 0x10000000000000000u128) as u64)
}

/// The jitter of one sample: zero offsets for a single centered sample,
/// otherwise two unit draws.
pub open spec fn sample_jitter(single: bool, s: int) -> (int, int, int) {
    if single {
        (0, 0, s)
    } else {
        (rng_unit_of(rng_step(s)), rng_unit_of(rng_step(rng_step(s))), rng_step(rng_step(s)))
    }
}

/// Sum of the first `n` sample colors of the pixel at `(i, j)`, and the
/// sampler state after them.
pub open spec fn pixel_samples(
    world: Seq<PrimV>,
    cam: CameraV,
    i: int,
    j: int,
    width: int,
    height: int,
    single: bool,
    depth: int,
    s0: int,
    n: nat,
) -> (C4, int)
    decreases n,
{
    if n == 0 {
        (C4 { r: 0, g: 0, b: 0, a: 0 }, s0)
    } else {
        let prev = pixel_samples(world, cam, i, j, width, height, single, depth, s0, (n - 1) as nat);
        let jit = sample_jitter(single, prev.1);
        let u = fx_div(fx_add(i * (FX_ONE_RAW as int), jit.0), (width - 1) * (FX_ONE_RAW as int));
        let v = fx_div(fx_add(j * (FX_ONE_RAW as int), jit.1), (height - 1) * (FX_ONE_RAW as int));
        let cr = camera_ray(cam, u, v, jit.2);
        let col = ray_color_spec(cr.0, world, depth, cr.1);
        (c_add(prev.0, col.0), col.1)
    }
}

/// The color of the pixel at `(i, j)` of a path-traced pass: the average of
/// its jittered samples, from the pixel's own seeded sampler.
pub open spec fn trace_pixel_spec(
    world: Seq<PrimV>,
    cam: CameraV,
    i: int,
    j: int,
    width: int,
    height: int,
    samples: int,
    depth: int,
    seed: int,
) -> C4 {
    let s0 = pixel_state(seed, i, j, width);
    let acc = pixel_samples(world, cam, i, j, width, height, samples == 1, depth, s0,
        samples as nat);
    c_div_int(acc.0, samples)
}

/// Render one path-traced pixel.
pub fn trace_pixel(
    world: &World,
    cam: &Camera,
    i: u32,
    j: u32,
    width: u32,
    height: u32,
    samples: u32,
    depth: i32,
    seed: u64,
) -> (r: Color)
    requires
        width >= 1,
        height >= 1,
    ensures
        r@ == trace_pixel_spec(
            world@,
            cam@,
            i as int,
            j as int,
            width as int,
            height as int,
            samples as int,
            depth as int,
            seed as int,
        ),
{
    let single = samples == 1;
    let mut rng = pixel_rng(seed, i, j, width);
    let ghost s0 = rng@;
    let zero = Fx::zero();
    let mut color = Color::new(zero, zero, zero, zero);
    let wd = Fx::from_u32(width - 1);
    let hd = Fx::from_u32(height - 1);
    let mut sample: u32 = 0;
    while sample < samples
        invariant
            sample <= samples,
            wd@ == (width - 1) as int * (FX_ONE_RAW as int),
            hd@ == (height - 1) as int * (FX_ONE_RAW as int),
            width >= 1,
            height >= 1,
            single == (samples == 1),
            (color@, rng@) == pixel_samples(
                world@,
                cam@,
                i as int,
                j as int,
                width as int,
                height as int,
                single,
                depth as int,
                s0,
                sample as nat,
            ),
        decreases samples - sample,
    {
        let (u2, v2) = if single {
            (Fx::zero(), Fx::zero())
        } else {
            (rng.next_unit(), rng.next_unit())
        };
        let u = Fx::from_u32(i).add(u2).div(wd);
        let v = Fx::from_u32(j).add(v2).div(hd);
        let ray = cam.get_ray(u, v, &mut rng);
        let c = ray_color(&ray, world, depth, &mut rng);
        color.add_assign(c);
        sample = sample + 1;
    }
    color.from_samples(samples)
}

/// The color of the pixel at `(i, j)` of a sprite pass.
pub open spec fn sprite_pixel_spec(
    world: Seq<PrimV>,
    cam: crate::sprite::SpriteCameraV,
    i: int,
    j: int,
    width: int,
    height: int,
    mode: ShadingModes,
) -> C4 {
    let u = fx_div(i * (FX_ONE_RAW as int), (width - 1) * (FX_ONE_RAW as int));
    let v = fx_div(j * (FX_ONE_RAW as int), (height - 1) * (FX_ONE_RAW as int));
    sprite_ray_color_spec(sprite_camera_ray(cam, u, v), world, mode)
}

/// Render one sprite pixel.
pub fn sprite_pixel(
    world: &World,
    cam: &crate::sprite::Camera,
    i: u32,
    j: u32,
    width: u32,
    height: u32,
    mode: ShadingModes,
) -> (r: Color)
    requires
        width >= 1,
        height >= 1,
    ensures
        r@ == sprite_pixel_spec(
            world@,
            cam@,
            i as int,
            j as int,
            width as int,
            height as int,
            mode,
        ),
{
    let u = Fx::from_u32(i).div(Fx::from_u32(width - 1));
    let v = Fx::from_u32(j).div(Fx::from_u32(height - 1));
    let ray = cam.ray(u, v);
    sprite_ray_color(&ray, world, mode)
}

/// One per-pixel rendering task: everything a worker needs, read-only.
pub enum RenderJob<'a> {
    Trace {
        world: &'a World,
        camera: &'a Camera,
        width: u32,
        height: u32,
        samples: u32,
        depth: i32,
        seed: u64,
    },
    Sprite {
        world: &'a World,
        camera: &'a crate::sprite::Camera,
        width: u32,
        height: u32,
        mode: ShadingModes,
    },
}

/// The model of a rendering task.
pub enum JobV {
    Trace {
        world: Seq<PrimV>,
        camera: CameraV,
        width: int,
        height: int,
        samples: int,
        depth: int,
        seed: int,
    },
    Sprite {
        world: Seq<PrimV>,
        camera: crate::sprite::SpriteCameraV,
        width: int,
        height: int,
        mode: ShadingModes,
    },
}

impl<'a> View for RenderJob<'a> {
    type V = JobV;

    open spec fn view(&self) -> JobV {
        match self {
            RenderJob::Trace { world, camera, width, height, samples, depth, seed } => JobV::Trace {
                world: world@,
                camera: camera@,
                width: *width as int,
                height: *height as int,
                samples: *samples as int,
                depth: *depth as int,
                seed: *seed as int,
            },
            RenderJob::Sprite { world, camera, width, height, mode } => JobV::Sprite {
                world: world@,
                camera: camera@,
                width: *width as int,
                height: *height as int,
                mode: *mode,
            },
        }
    }
}

/// A task is well-formed when its image has at least one pixel each way.
pub open spec fn job_wf(j: JobV) -> bool {
    match j {
        JobV::Trace { width, height, .. } => width >= 1 && height >= 1,
        JobV::Sprite { width, height, .. } => width >= 1 && height >= 1,
    }
}

/// The color a task gives the pixel at `(i, j)`.
pub open spec fn pixel_color_spec(j: JobV, x: int, y: int) -> C4 {
    match j {
        JobV::Trace { world, camera, width, height, samples, depth, seed } => trace_pixel_spec(
            world,
            camera,
            x,
            y,
            width,
            height,
            samples,
            depth,
            seed,
        ),
        JobV::Sprite { world, camera, width, height, mode } => sprite_pixel_spec(
            world,
            camera,
            x,
            y,
            width,
            height,
            mode,
        ),
    }
}

/// Compute the color of one pixel of a task.
pub fn pixel_color(job: &RenderJob, x: u32, y: u32) -> (r: Color)
    requires
        job_wf(job@),
    ensures
        r@ == pixel_color_spec(job@, x as int, y as int),
{
    match job {
        RenderJob::Trace { world, camera, width, height, samples, depth, seed } => trace_pixel(
            world,
            camera,
            x,
            y,
            *width,
            *height,
            *samples,
            *depth,
            *seed,
        ),
        RenderJob::Sprite { world, camera, width, height, mode } => sprite_pixel(
            world,
            camera,
            x,
            y,
            *width,
            *height,
            *mode,
        ),
    }
}

/// Relies on rayon: `par_iter().map(f).collect()` on a `Vec` applies `f` to
/// every element and collects the results in order; the closure only calls
/// the verified `pixel_color`.  Each pixel task is independent and
/// `pixel_color` is a pure function of the task and the coordinates, so the
/// scheduling order cannot show in the output.
#[verifier::external_body]
fn pixel_colors_parallel(job: &RenderJob, coords: &Vec<(u32, u32)>) -> (out: Vec<Color>)
    requires
        job_wf(job@),
    ensures
        out@.len() == coords@.len(),
        forall|k: int|
            0 <= k < coords@.len() ==> out@[k]@ == pixel_color_spec(
                job@,
                coords@[k].0 as int,
                coords@[k].1 as int,
            ),
{
    coords.par_iter().map(|c| pixel_color(job, c.0, c.1)).collect()
}

/// A rendered image: row-major pixels, top row first.
pub struct Image {
    pub width: u32,
    pub height: u32,
    pub pixels: Vec<Color>,
}

impl Image {
    /// The 8-bit RGBA bytes of the image, row-major from the top row.
    pub fn to_rgba_bytes(&self) -> (out: Vec<u8>)
        ensures
            out@.len() == 4 * self.pixels@.len(),
            forall|k: int|
                0 <= k < self.pixels@.len() ==> {
                    &&& out@[4 * k] as int == byte_of(self.pixels@[k]@.r)
                    &&& out@[4 * k + 1] as int == byte_of(self.pixels@[k]@.g)
                    &&& out@[4 * k + 2] as int == byte_of(self.pixels@[k]@.b)
                    &&& out@[4 * k + 3] as int == byte_of(self.pixels@[k]@.a)
                },
    {
        let mut out: Vec<u8> = Vec::new();
        let n = self.pixels.len();
        let mut k: usize = 0;
        while k < n
            invariant
                k <= n,
                n == self.pixels@.len(),
                out@.len() == 4 * k,
                forall|m: int|
                    0 <= m < k ==> {
                        &&& out@[4 * m] as int == byte_of(self.pixels@[m]@.r)
                        &&& out@[4 * m + 1] as int == byte_of(self.pixels@[m]@.g)
                        &&& out@[4 * m + 2] as int == byte_of(self.pixels@[m]@.b)
                        &&& out@[4 * m + 3] as int == byte_of(self.pixels@[m]@.a)
                    },
            decreases n - k,
        {
            let bytes = self.pixels[k].to_bytes();
            out.push(bytes[0]);
            out.push(bytes[1]);
            out.push(bytes[2]);
            out.push(bytes[3]);
            k = k + 1;
        }
        out
    }
}

/// The coordinate of the `k`-th entry of a render pass's pixel list:
/// row-major, vertically flipped, so the sample-space bottom row lands at
/// the bottom of the image.
pub open spec fn flip_coord(width: int, height: int, k: int) -> (u32, u32) {
    (((k % width) as u32), ((height - 1 - k / width) as u32))
}

pub open spec fn flipped_coords_ok(coords: Seq<(u32, u32)>, width: int, height: int) -> bool {
    &&& coords.len() == width * height
    &&& forall|k: int| 0 <= k < coords.len() ==> coords[k] == flip_coord(width, height, k)
}

/// Build the flipped coordinate list.
fn flipped_coords(width: u32, height: u32) -> (coords: Vec<(u32, u32)>)
    requires
        width >= 1,
        height >= 1,
    ensures
        flipped_coords_ok(coords@, width as int, height as int),
{
    let mut coords: Vec<(u32, u32)> = Vec::new();
    let mut row: u32 = 0;
    while row < height
        invariant
            row <= height,
            width >= 1,
            height >= 1,
            coords@.len() == row * width,
            forall|k: int|
                0 <= k < coords@.len() ==> coords@[k] == flip_coord(
                    width as int,
                    height as int,
                    k,
                ),
        decreases height - row,
    {
        let j = height - 1 - row;
        let mut x: u32 = 0;
        while x < width
            invariant
                x <= width,
                row < height,
                width >= 1,
                height >= 1,
                j == height - 1 - row,
                coords@.len() == row * width + x,
                forall|k: int|
                    0 <= k < coords@.len() ==> coords@[k] == flip_coord(
                        width as int,
                        height as int,
                        k,
                    ),
            decreases width - x,
        {
            proof {
                vstd::arithmetic::div_mod::lemma_fundamental_div_mod_converse(
                    (row as int) * (width as int) + (x as int),
                    width as int,
                    row as int,
                    x as int,
                );
            }
            coords.push((x, j));
            x = x + 1;
        }
        proof {
            assert((row as int + 1) * (width as int) == (row as int) * (width as int) + (
            width as int)) by (nonlinear_arith);
        }
        row = row + 1;
    }
    proof {
        assert(coords@.len() == (height as int) * (width as int));
        assert((height as int) * (width as int) == (width as int) * (height as int))
            by (nonlinear_arith);
    }
    coords
}

/// The model of a pixel buffer.
pub open spec fn image_model(pixels: Seq<Color>) -> Seq<C4> {
    Seq::new(pixels.len(), |k: int| pixels[k]@)
}

/// The pixels are exactly the path-traced pass over the given scene,
/// camera and parameters, row-major with the vertical axis flipped.
pub open spec fn trace_image_ok(
    pixels: Seq<C4>,
    world: Seq<PrimV>,
    cam: CameraV,
    width: int,
    height: int,
    samples: int,
    depth: int,
    seed: int,
) -> bool {
    &&& pixels.len() == width * height
    &&& forall|k: int|
        0 <= k < pixels.len() ==> pixels[k] == trace_pixel_spec(
            world,
            cam,
            flip_coord(width, height, k).0 as int,
            flip_coord(width, height, k).1 as int,
            width,
            height,
            samples,
            depth,
            seed,
        )
}

/// Render a path-traced pass: for every pixel, average `samples` jittered
/// camera rays resolved by the integrator, pixels computed independently
/// and placed by coordinate with the vertical axis flipped.  The output is
/// an exact function of the arguments: rendering twice gives identical
/// images.
pub fn render(
    world: &World,
    camera: &Camera,
    width: u32,
    height: u32,
    samples: u32,
    depth: i32,
    seed: u64,
) -> (img: Image)
    requires
        width >= 1,
        height >= 1,
    ensures
        img.width == width,
        img.height == height,
        trace_image_ok(
            image_model(img.pixels@),
            world@,
            camera@,
            width as int,
            height as int,
            samples as int,
            depth as int,
            seed as int,
        ),
{
    let job = RenderJob::Trace { world, camera, width, height, samples, depth, seed };
    let coords = flipped_coords(width, height);
    let pixels = pixel_colors_parallel(&job, &coords);
    Image { width, height, pixels }
}

/// Compute the raw (pre-post-processing) pixels of a sprite pass,
/// row-major with the vertical axis flipped.
pub fn render_sprite_pixels(
    world: &World,
    camera: &crate::sprite::Camera,
    width: u32,
    height: u32,
    mode: ShadingModes,
) -> (out: Vec<Color>)
    requires
        width >= 1,
        height >= 1,
    ensures
        out@.len() == width as int * height as int,
        forall|k: int|
            0 <= k < out@.len() ==> out@[k]@ == sprite_pixel_spec(
                world@,
                camera@,
                flip_coord(width as int, height as int, k).0 as int,
                flip_coord(width as int, height as int, k).1 as int,
                width as int,
                height as int,
                mode,
            ),
{
    let job = RenderJob::Sprite { world, camera, width, height, mode };
    let coords = flipped_coords(width, height);
    pixel_colors_parallel(&job, &coords)
}

/// Re-running a pass changes nothing: two pixel buffers of the same scene,
/// camera and parameters are equal, since no hidden state is carried
/// between pixels or between runs.
pub proof fn lemma_render_idempotent(
    p1: Seq<C4>,
    p2: Seq<C4>,
    world: Seq<PrimV>,
    cam: CameraV,
    width: int,
    height: int,
    samples: int,
    depth: int,
    seed: int,
)
    requires
        trace_image_ok(p1, world, cam, width, height, samples, depth, seed),
        trace_image_ok(p2, world, cam, width, height, samples, depth, seed),
    ensures
        p1 =~= p2,
{
}

} // verus!
