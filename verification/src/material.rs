//! Surface materials and their scatter behavior.
//!
//! A material, given an incoming ray and a hit, produces an attenuation
//! color and an outgoing scattered ray, or signals absorption (`None`,
//! possible only for the reflective variant).  The scatter decision of the
//! dielectric variant is stochastic by design: it reflects with probability
//! given by the Schlick approximation, which is what makes glass render
//! correctly in aggregate over many samples.

use vstd::prelude::*;
use crate::fx::{Fx, fx_add, fx_sub, fx_mul, fx_div, fx_min, fx_neg, fx_sqrt, is_isqrt, FX_ONE_RAW};
use crate::vec3::{
    Vec3, V3, v3_add, v3_scale, v3_dot, v3_neg, v3_unit, v3_near_zero, v3_reflect, v3_refract,
    v3_in_unit_sphere, v3_in_range, v3_len_squared, SAMPLE_TRIES,
};
use crate::ray::{Ray, RayV};
use crate::color::{Color, C4};
use crate::rng::{Rng, rng_step, rng_unit_of, random_normalized};
use crate::hit::{HitRecord, HitV};

verus! {

/// The model of a material.
pub enum MatV {
    Lambertian { albedo: C4 },
    Metal { albedo: C4, fuzz: int },
    Dielectric { ir: int },
}

/// A surface material: diffuse, reflective, or refractive.
#[derive(Clone, Copy, Debug)]
pub enum Material {
    Lambertian { albedo: Color },
    Metal { albedo: Color, fuzz: Fx },
    Dielectric { ir: Fx },
}

impl View for Material {
    type V = MatV;

    open spec fn view(&self) -> MatV {
        match self {
            Material::Lambertian { albedo } => MatV::Lambertian { albedo: albedo@ },
            Material::Metal { albedo, fuzz } => MatV::Metal { albedo: albedo@, fuzz: fuzz@ },
            Material::Dielectric { ir } => MatV::Dielectric { ir: ir@ },
        }
    }
}

/// Fifth power.
pub open spec fn fx_pow5(p: int) -> int {
    fx_mul(fx_mul(fx_mul(fx_mul(p, p), p), p), p)
}

/// Schlick's approximation of the Fresnel reflectance.
pub open spec fn schlick(cos: int, ref_idx: int) -> int {
    let r0 = fx_div(fx_sub(FX_ONE_RAW as int, ref_idx), fx_add(FX_ONE_RAW as int, ref_idx));
    let r0s = fx_mul(r0, r0);
    fx_add(r0s, fx_mul(fx_sub(FX_ONE_RAW as int, r0s), fx_pow5(fx_sub(FX_ONE_RAW as int, cos))))
}

/// The opaque-white attenuation of a dielectric surface.
pub open spec fn c4_white() -> C4 {
    C4 { r: FX_ONE_RAW as int, g: FX_ONE_RAW as int, b: FX_ONE_RAW as int, a: FX_ONE_RAW as int }
}

/// Scatter of a diffuse surface: the new direction is the corrected normal
/// plus a random unit vector, or the normal itself when that is degenerate.
pub open spec fn scatter_lambertian(albedo: C4, hit: HitV, s: int) -> (Option<(C4, RayV)>, int) {
    let draw = v3_in_unit_sphere(s, SAMPLE_TRIES as nat);
    let dir0 = v3_add(hit.normal, v3_unit(draw.0));
    let dir = if v3_near_zero(dir0) {
        hit.normal
    } else {
        dir0
    };
    (Some((albedo, RayV { origin: hit.point, direction: dir })), draw.1)
}

/// Scatter of a reflective surface: the mirror direction perturbed by the
/// fuzz clamped into `[0, 1]`; absorbed when the result points into the
/// surface.
pub open spec fn scatter_metal(albedo: C4, fuzz: int, ray: RayV, hit: HitV, s: int) -> (Option<(
    C4,
    RayV,
)>, int) {
    let f = crate::fx::fx_clamp_to(fuzz, 0, FX_ONE_RAW as int);
    let reflected = v3_reflect(v3_unit(ray.direction), hit.normal);
    let draw = v3_in_unit_sphere(s, SAMPLE_TRIES as nat);
    let dir = v3_add(reflected, v3_scale(draw.0, f));
    if v3_dot(dir, hit.normal) > 0 {
        (Some((albedo, RayV { origin: hit.point, direction: dir })), draw.1)
    } else {
        (None, draw.1)
    }
}

/// Scatter of a refractive surface: refract unless total internal reflection
/// or a Schlick-weighted random draw chooses reflection; never absorbs.
pub open spec fn scatter_dielectric(ir: int, ray: RayV, hit: HitV, s: int) -> (Option<(C4, RayV)>,
    int) {
    let ratio = if hit.front_face {
        fx_div(FX_ONE_RAW as int, ir)
    } else {
        ir
    };
    let unit_dir = v3_unit(ray.direction);
    let cos_theta = fx_min(v3_dot(v3_neg(unit_dir), hit.normal), FX_ONE_RAW as int);
    let sin_theta = fx_sqrt(fx_sub(FX_ONE_RAW as int, fx_mul(cos_theta, cos_theta)));
    let cannot_refract = fx_mul(ratio, sin_theta) > FX_ONE_RAW as int;
    let dir = if cannot_refract {
        v3_reflect(unit_dir, hit.normal)
    } else if schlick(cos_theta, ratio) > rng_unit_of(rng_step(s)) {
        v3_reflect(unit_dir, hit.normal)
    } else {
        v3_refract(unit_dir, hit.normal, ratio)
    };
    let s1 = if cannot_refract {
        s
    } else {
        rng_step(s)
    };
    (Some((c4_white(), RayV { origin: hit.point, direction: dir })), s1)
}

/// The scatter decision of a material.
pub open spec fn scatter_spec(m: MatV, ray: RayV, hit: HitV, s: int) -> (Option<(C4, RayV)>, int) {
    match m {
        MatV::Lambertian { albedo } => scatter_lambertian(albedo, hit, s),
        MatV::Metal { albedo, fuzz } => scatter_metal(albedo, fuzz, ray, hit, s),
        MatV::Dielectric { ir } => scatter_dielectric(ir, ray, hit, s),
    }
}

/// A material's albedo channels lie in `[0, 1]`.
pub open spec fn mat_albedo_wf(m: MatV) -> bool {
    match m {
        MatV::Lambertian { albedo } => 0 <= albedo.r <= FX_ONE_RAW as int && 0 <= albedo.g
            <= FX_ONE_RAW as int && 0 <= albedo.b <= FX_ONE_RAW as int && 0 <= albedo.a
            <= FX_ONE_RAW as int,
        MatV::Metal { albedo, fuzz } => 0 <= albedo.r <= FX_ONE_RAW as int && 0 <= albedo.g
            <= FX_ONE_RAW as int && 0 <= albedo.b <= FX_ONE_RAW as int && 0 <= albedo.a
            <= FX_ONE_RAW as int,
        MatV::Dielectric { ir } => true,
    }
}

/// The attenuation a scatter reports has channels in `[0, 1]` whenever the
/// material's albedo does: it is either that albedo or opaque white.
pub proof fn lemma_scatter_attenuation_in_range(m: MatV, ray: RayV, hit: HitV, s: int)
    requires
        mat_albedo_wf(m),
    ensures
        match scatter_spec(m, ray, hit, s).0 {
            Some((attenuation, scattered)) => {
                &&& 0 <= attenuation.r <= FX_ONE_RAW as int
                &&& 0 <= attenuation.g <= FX_ONE_RAW as int
                &&& 0 <= attenuation.b <= FX_ONE_RAW as int
                &&& 0 <= attenuation.a <= FX_ONE_RAW as int
            },
            None => true,
        },
{
}

/// A degenerate diffuse direction is replaced by the surface normal, so a
/// diffuse scatter's direction is never near zero unless the normal is.
pub proof fn lemma_lambertian_direction_not_degenerate(albedo: C4, hit: HitV, s: int)
    requires
        !v3_near_zero(hit.normal),
    ensures
        !v3_near_zero(scatter_lambertian(albedo, hit, s).0.unwrap().1.direction),
{
}

/// A dielectric with matched index of refraction (one) never totally
/// internally reflects and never bends the ray: at normal incidence on an
/// exactly unit normal it always refracts, the scattered direction equals
/// the incoming unit direction, and the attenuation is opaque white.
#[verifier::rlimit(60)]
pub proof fn lemma_dielectric_matched_index(ir: int, r: RayV, hit: HitV, s: int)
    requires
        ir == FX_ONE_RAW as int,
        v3_unit(r.direction) == v3_neg(hit.normal),
        v3_in_range(hit.normal),
        v3_dot(hit.normal, hit.normal) == FX_ONE_RAW as int,
    ensures
        scatter_dielectric(ir, r, hit, s).0 is Some,
        scatter_dielectric(ir, r, hit, s).0.unwrap().0 == c4_white(),
        scatter_dielectric(ir, r, hit, s).0.unwrap().1.direction == v3_unit(r.direction),
{
    let one = FX_ONE_RAW as int;
    let n = hit.normal;
    let uv = v3_unit(r.direction);
    assert((65536 as int) * (65536 as int) == 4294967296) by (nonlinear_arith);
    assert((65537 as int) * (65537 as int) == 4295098369) by (nonlinear_arith);
    assert(fx_div(one, one) == one);
    let ratio = if hit.front_face {
        fx_div(one, ir)
    } else {
        ir
    };
    assert(ratio == one);
    assert(v3_neg(uv) == n);
    let cos_theta = fx_min(v3_dot(v3_neg(uv), n), one);
    assert(cos_theta == one);
    assert(fx_mul(one, one) == one);
    assert(fx_sub(one, fx_mul(cos_theta, cos_theta)) == 0);
    assert(fx_sqrt(0) == 0);
    assert(fx_mul(ratio, 0) == 0);
    crate::rng::lemma_rng_unit_bounds(s);
    // Schlick's approximation vanishes at matched indices.
    assert(fx_sub(one, ratio) == 0);
    assert(fx_div(0, fx_add(one, ratio)) == 0);
    assert(fx_mul(0, 0) == 0);
    assert(fx_pow5(fx_sub(one, cos_theta)) == 0);
    assert(schlick(cos_theta, ratio) == 0);
    // The refraction leaves the direction unchanged.
    assert(v3_scale(n, one) == n) by {
        crate::fx::lemma_fx_mul_one(n.x);
        crate::fx::lemma_fx_mul_one(n.y);
        crate::fx::lemma_fx_mul_one(n.z);
    }
    let zero3 = V3 { x: 0, y: 0, z: 0 };
    assert(v3_add(uv, v3_scale(n, one)) == zero3);
    assert(v3_scale(zero3, one) == zero3);
    assert(v3_len_squared(zero3) == 0);
    assert(fx_sub(one, 0) == one);
    assert(fx_sqrt(one) == one) by {
        reveal(crate::fx::isqrt);
        assert(is_isqrt(4294967296, 65536));
        crate::fx::lemma_isqrt_unique(4294967296, 65536, crate::fx::isqrt(4294967296));
    }
    assert(v3_scale(n, fx_neg(one)) == uv) by {
        crate::fx::lemma_fx_mul_one(n.x);
        crate::fx::lemma_fx_mul_one(n.y);
        crate::fx::lemma_fx_mul_one(n.z);
    }
    assert(v3_add(zero3, uv) == uv);
    assert(v3_refract(uv, n, ratio) == uv);
}

/// Schlick's approximation for reflectance.
fn reflectance(cos: Fx, ref_idx: Fx) -> (r: Fx)
    ensures
        r@ == schlick(cos@, ref_idx@),
{
    let one = Fx::one();
    let r0 = one.sub(ref_idx).div(one.add(ref_idx));
    let r0s = r0.mul(r0);
    let p = one.sub(cos);
    let p5 = p.mul(p).mul(p).mul(p).mul(p);
    r0s.add(one.sub(r0s).mul(p5))
}

impl Material {
    /// Decide how the incoming ray scatters at `hit_record`: an attenuation
    /// and a scattered ray, or absorption.
    pub fn scatter(&self, ray_in: &Ray, hit_record: &HitRecord, rng: &mut Rng) -> (r: Option<(
        Color,
        Ray,
    )>)
        ensures
            ({
                let sp = scatter_spec(self@, ray_in@, hit_record@, old(rng)@);
                final(rng)@ == sp.1 && match (r, sp.0) {
                    (Some((c, ray)), Some((cs, rs))) => c@ == cs && ray@ == rs,
                    (None, None) => true,
                    _ => false,
                }
            }),
    {
        match self {
            Material::Lambertian { albedo } => {
                let mut scatter_direction = hit_record.normal.add(Vec3::random_unit_vector(rng));
                // Degenerate scatter direction
                if scatter_direction.near_zero() {
                    scatter_direction = hit_record.normal;
                }
                let attenuation = *albedo;
                let scattered = Ray::new(hit_record.point, scatter_direction);
                Some((attenuation, scattered))
            },
            Material::Metal { albedo, fuzz } => {
                let fuzz = crate::fx::clamp(*fuzz, Fx::zero(), Fx::one());
                let reflected = ray_in.direction().unit_vector().reflect(hit_record.normal);
                let scattered = Ray::new(
                    hit_record.point,
                    reflected.add(Vec3::random_in_unit_sphere(rng).scale(fuzz)),
                );
                let attenuation = albedo;
                if scattered.direction().dot(hit_record.normal).gt(Fx::zero()) {
                    Some((*attenuation, scattered))
                } else {
                    None
                }
            },
            Material::Dielectric { ir } => {
                let one = Fx::one();
                let attenuation = Color::new(one, one, one, one);
                let refraction_ratio = if hit_record.front_face {
                    one.div(*ir)
                } else {
                    *ir
                };
                let unit_dir = ray_in.direction().unit_vector();
                let cos_theta = Fx::min(unit_dir.neg().dot(hit_record.normal), one);
                let sin_theta = one.sub(cos_theta.mul(cos_theta)).nsqrt();
                let cannot_refract = refraction_ratio.mul(sin_theta).gt(one);
                let dir = if cannot_refract {
                    unit_dir.reflect(hit_record.normal)
                } else if reflectance(cos_theta, refraction_ratio).gt(random_normalized(rng)) {
                    unit_dir.reflect(hit_record.normal)
                } else {
                    unit_dir.refract(hit_record.normal, refraction_ratio)
                };
                let scattered = Ray::new(hit_record.point, dir);
                Some((attenuation, scattered))
            },
        }
    }

    /// The material's flat color: the albedo of a diffuse or reflective
    /// surface, opaque white for a dielectric.
    pub fn color(&self) -> (r: Color)
        ensures
            r@ == mat_color(self@),
    {
        match self {
            Material::Lambertian { albedo } => *albedo,
            Material::Metal { albedo, fuzz: _ } => *albedo,
            Material::Dielectric { ir: _ } => {
                let one = Fx::one();
                Color::new(one, one, one, one)
            },
        }
    }
}

/// The flat color of a material.
pub open spec fn mat_color(m: MatV) -> C4 {
    match m {
        MatV::Lambertian { albedo } => albedo,
        MatV::Metal { albedo, fuzz } => albedo,
        MatV::Dielectric { ir } => c4_white(),
    }
}

} // verus!
