//! Scene primitives and the scene aggregate.
//!
//! A `World` is an insertion-ordered collection of primitives; its `hit`
//! resolves the nearest intersection, and a strictly-closer rule makes ties
//! favor the primitive inserted first.

use vstd::prelude::*;
use crate::fx::{Fx, fx_sub, fx_mul, fx_div, fx_neg, fx_sqrt, FX_ONE_RAW};
use crate::vec3::{Vec3, V3, v3_sub, v3_dot, v3_len, v3_len_squared, v3_div_s, v3_in_range};
use crate::ray::{Ray, RayV, ray_at};
use crate::material::{Material, MatV};
use crate::hit::{HitRecord, HitV, hit_record_new};
use crate::mesh::{Mesh, MeshV, mesh_hit, opt_hit_view};
use crate::color::{Color, C4};
use crate::rng::{Rng, random_normalized, random_range};

verus! {

/// The model of a sphere.
pub struct SphereV {
    pub center: V3,
    pub radius: int,
    pub material: MatV,
}

/// A sphere; a negative radius is allowed and flips the outward normal,
/// which models a hollow shell.
pub struct Sphere {
    center: Vec3,
    radius: Fx,
    material: Material,
}

impl View for Sphere {
    type V = SphereV;

    closed spec fn view(&self) -> SphereV {
        SphereV { center: self.center@, radius: self.radius@, material: self.material@ }
    }
}

/// Sphere intersection: the nearer root of the quadratic, accepted only
/// inside `[t_min, t_max]`; the outward normal is scaled by the signed
/// radius, so a negative radius points it inward.
pub open spec fn sphere_hit(s: SphereV, r: RayV, t_min: int, t_max: int) -> Option<HitV> {
    let oc = v3_sub(r.origin, s.center);
    let a = v3_len_squared(r.direction);
    let half_b = v3_dot(oc, r.direction);
    let c = fx_sub(v3_len_squared(oc), fx_mul(s.radius, s.radius));
    let discriminant = fx_sub(fx_mul(half_b, half_b), fx_mul(a, c));
    if discriminant < 0 {
        None
    } else {
        let sqrtd = fx_sqrt(discriminant);
        let root = fx_div(fx_sub(fx_neg(half_b), sqrtd), a);
        if root < t_min || t_max < root {
            None
        } else {
            let point = ray_at(r, root);
            Some(
                hit_record_new(root, point, v3_div_s(v3_sub(point, s.center), s.radius), r,
                s.material),
            )
        }
    }
}

/// The raw outward normal the sphere intersection reports: the hit point
/// minus the center, divided by the signed radius.
pub open spec fn sphere_outward_normal(s: SphereV, r: RayV) -> V3 {
    let oc = v3_sub(r.origin, s.center);
    let a = v3_len_squared(r.direction);
    let half_b = v3_dot(oc, r.direction);
    let c = fx_sub(v3_len_squared(oc), fx_mul(s.radius, s.radius));
    let discriminant = fx_sub(fx_mul(half_b, half_b), fx_mul(a, c));
    let sqrtd = fx_sqrt(discriminant);
    let root = fx_div(fx_sub(fx_neg(half_b), sqrtd), a);
    v3_div_s(v3_sub(ray_at(r, root), s.center), s.radius)
}

/// The normal of any reported sphere hit opposes the incoming ray:
/// `dot(normal, direction) < 0`.  A ray exactly tangent to the sphere,
/// whose direction is orthogonal to the geometric normal, is excluded.
pub proof fn lemma_sphere_normal_opposes(s: SphereV, r: RayV, t_min: int, t_max: int)
    requires
        sphere_hit(s, r, t_min, t_max) is Some,
        v3_dot(r.direction, sphere_outward_normal(s, r)) != 0,
    ensures
        v3_dot(sphere_hit(s, r, t_min, t_max).unwrap().normal, r.direction) < 0,
{
    let oc = v3_sub(r.origin, s.center);
    let a = v3_len_squared(r.direction);
    let half_b = v3_dot(oc, r.direction);
    let c = fx_sub(v3_len_squared(oc), fx_mul(s.radius, s.radius));
    let discriminant = fx_sub(fx_mul(half_b, half_b), fx_mul(a, c));
    let sqrtd = fx_sqrt(discriminant);
    let root = fx_div(fx_sub(fx_neg(half_b), sqrtd), a);
    let point = ray_at(r, root);
    let p = v3_sub(point, s.center);
    crate::fx::lemma_fx_div_in_range(p.x, s.radius);
    crate::fx::lemma_fx_div_in_range(p.y, s.radius);
    crate::fx::lemma_fx_div_in_range(p.z, s.radius);
    crate::hit::lemma_hit_normal_opposes(root, point, sphere_outward_normal(s, r), r, s.material);
}

impl Sphere {
    pub fn new(center: Vec3, radius: Fx, material: Material) -> (r: Sphere)
        ensures
            r@ == (SphereV { center: center@, radius: radius@, material: material@ }),
    {
        Sphere { center, radius, material }
    }

    /// The nearest intersection of the ray with the sphere in
    /// `[t_min, t_max]`.
    pub fn hit(&self, ray: &Ray, t_min: Fx, t_max: Fx) -> (r: Option<HitRecord>)
        ensures
            opt_hit_view(r) == sphere_hit(self@, ray@, t_min@, t_max@),
    {
        let oc = ray.origin().sub(self.center);
        let a = ray.direction().len_squared();
        let half_b = oc.dot(ray.direction());
        let c = oc.len_squared().sub(self.radius.mul(self.radius));
        let discriminant = half_b.mul(half_b).sub(a.mul(c));
        if discriminant.lt(Fx::zero()) {
            return None;
        }
        let sqrtd = discriminant.nsqrt();
        let root = half_b.neg().sub(sqrtd).div(a);
        if root.lt(t_min) || t_max.lt(root) {
            return None;
        }
        let point = ray.at(root);
        let rec = HitRecord::new(
            root,
            point,
            point.sub(self.center).div_s(self.radius),
            ray,
            self.material,
        );
        Some(rec)
    }
}

/// The model of a primitive.
pub enum PrimV {
    Sphere(SphereV),
    Mesh(MeshV),
}

/// A closed set of primitive shapes.
pub enum Primitive {
    Sphere(Sphere),
    Mesh(Mesh),
}

impl View for Primitive {
    type V = PrimV;

    open spec fn view(&self) -> PrimV {
        match self {
            Primitive::Sphere(s) => PrimV::Sphere(s@),
            Primitive::Mesh(m) => PrimV::Mesh(m@),
        }
    }
}

/// Intersection of a ray with one primitive.
#[verifier::opaque]
pub open spec fn prim_hit(p: PrimV, r: RayV, t_min: int, t_max: int) -> Option<HitV> {
    match p {
        PrimV::Sphere(s) => sphere_hit(s, r, t_min, t_max),
        PrimV::Mesh(m) => mesh_hit(m, r, t_min, t_max),
    }
}

impl Primitive {
    /// Intersect the ray with this primitive.
    pub fn hit(&self, ray: &Ray, t_min: Fx, t_max: Fx) -> (r: Option<HitRecord>)
        ensures
            opt_hit_view(r) == prim_hit(self@, ray@, t_min@, t_max@),
    {
        proof {
            reveal(prim_hit);
        }
        match self {
            Primitive::Sphere(s) => s.hit(ray, t_min, t_max),
            Primitive::Mesh(m) => m.hit(ray, t_min, t_max),
        }
    }
}

/// The material a primitive carries: a sphere's own, a mesh's shared one.
pub open spec fn prim_material(p: PrimV) -> MatV {
    match p {
        PrimV::Sphere(s) => s.material,
        PrimV::Mesh(m) => m.material,
    }
}

/// A record a primitive reports carries that primitive's material.
pub proof fn lemma_prim_hit_material(p: PrimV, r: RayV, t_min: int, t_max: int)
    ensures
        prim_hit(p, r, t_min, t_max) is Some ==> prim_hit(p, r, t_min, t_max).unwrap().material
            == prim_material(p),
{
    reveal(prim_hit);
    match p {
        PrimV::Sphere(s) => {},
        PrimV::Mesh(m) => {
            crate::mesh::lemma_mesh_hit_material(m, r, t_min, t_max);
        },
    }
}

/// Every primitive's material has its albedo channels in `[0, 1]`.
pub open spec fn world_materials_wf(items: Seq<PrimV>) -> bool {
    forall|j: int|
        0 <= j < items.len() ==> crate::material::mat_albedo_wf(#[trigger] prim_material(items[j]))
}

/// A record the scene reports carries some primitive's material, so its
/// albedo channels are in `[0, 1]` whenever every primitive's are.
pub proof fn lemma_world_hit_material_wf(items: Seq<PrimV>, r: RayV, t_min: int, t_max: int)
    requires
        world_materials_wf(items),
        world_hit(items, r, t_min, t_max) is Some,
    ensures
        crate::material::mat_albedo_wf(world_hit(items, r, t_min, t_max).unwrap().material),
{
    let h = world_hit(items, r, t_min, t_max).unwrap();
    lemma_world_hit_nearest(items, r, t_min, t_max);
    let j = choose|j: int|
        0 <= j < items.len() && #[trigger] prim_hit(items[j], r, t_min, t_max) == Some(h);
    lemma_prim_hit_material(items[j], r, t_min, t_max);
}

/// One step of the scene scan: every primitive is probed with the full
/// search bounds, and only a strictly closer hit replaces the best one, so a tie
/// keeps the primitive inserted first.
pub open spec fn world_step(
    p: PrimV,
    r: RayV,
    t_min: int,
    t_max: int,
    closest: int,
    best: Option<HitV>,
) -> (int, Option<HitV>) {
    match prim_hit(p, r, t_min, t_max) {
        Some(hr) => if closest > hr.t {
            (hr.t, Some(hr))
        } else {
            (closest, best)
        },
        None => (closest, best),
    }
}

/// Scan the primitives from index `i` on.
pub open spec fn world_scan(
    items: Seq<PrimV>,
    r: RayV,
    t_min: int,
    t_max: int,
    i: nat,
    closest: int,
    best: Option<HitV>,
) -> (int, Option<HitV>)
    decreases items.len() - i,
{
    if i >= items.len() {
        (closest, best)
    } else {
        let step = world_step(items[i as int], r, t_min, t_max, closest, best);
        world_scan(items, r, t_min, t_max, i + 1, step.0, step.1)
    }
}

/// The nearest hit across the whole scene.
pub open spec fn world_hit(items: Seq<PrimV>, r: RayV, t_min: int, t_max: int) -> Option<HitV> {
    world_scan(items, r, t_min, t_max, 0, t_max, None::<HitV>).1
}

/// What the scan's accumulator means at position `i`: the running
/// distance is the best seen so far (or the bound), the best record hits
/// at that distance, and no earlier primitive hits strictly closer.
pub open spec fn scan_state_ok(
    items: Seq<PrimV>,
    r: RayV,
    t_min: int,
    t_max: int,
    i: nat,
    closest: int,
    best: Option<HitV>,
) -> bool {
    &&& closest <= t_max
    &&& match best {
        Some(h) => h.t == closest && closest < t_max && exists|j: int|
            0 <= j < i && #[trigger] prim_hit(items[j], r, t_min, t_max) == Some(h),
        None => closest == t_max,
    }
    &&& forall|j: int|
        0 <= j < i ==> match #[trigger] prim_hit(items[j], r, t_min, t_max) {
            Some(hj) => closest <= hj.t,
            None => true,
        }
}

proof fn lemma_world_scan_nearest(
    items: Seq<PrimV>,
    r: RayV,
    t_min: int,
    t_max: int,
    i: nat,
    closest: int,
    best: Option<HitV>,
)
    requires
        i <= items.len(),
        scan_state_ok(items, r, t_min, t_max, i, closest, best),
    ensures
        ({
            let res = world_scan(items, r, t_min, t_max, i, closest, best);
            scan_state_ok(items, r, t_min, t_max, items.len(), res.0, res.1)
        }),
    decreases items.len() - i,
{
    if i < items.len() {
        let step = world_step(items[i as int], r, t_min, t_max, closest, best);
        assert(scan_state_ok(items, r, t_min, t_max, i + 1, step.0, step.1));
        lemma_world_scan_nearest(items, r, t_min, t_max, i + 1, step.0, step.1);
    }
}

/// The scene resolves to the nearest hit: a returned record is one
/// primitive's hit, strictly inside the bound, and no primitive hits
/// closer; when nothing is returned, no primitive hits strictly inside the
/// bound at all.
pub proof fn lemma_world_hit_nearest(items: Seq<PrimV>, r: RayV, t_min: int, t_max: int)
    ensures
        match world_hit(items, r, t_min, t_max) {
            Some(h) => {
                &&& h.t < t_max
                &&& exists|j: int|
                    0 <= j < items.len() && #[trigger] prim_hit(items[j], r, t_min, t_max) == Some(
                        h,
                    )
                &&& forall|j: int|
                    0 <= j < items.len() ==> match #[trigger] prim_hit(items[j], r, t_min, t_max) {
                        Some(hj) => h.t <= hj.t,
                        None => true,
                    }
            },
            None => forall|j: int|
                0 <= j < items.len() ==> match #[trigger] prim_hit(items[j], r, t_min, t_max) {
                    Some(hj) => t_max <= hj.t,
                    None => true,
                },
        },
{
    assert(scan_state_ok(items, r, t_min, t_max, 0, t_max, None::<HitV>));
    lemma_world_scan_nearest(items, r, t_min, t_max, 0, t_max, None::<HitV>);
}

/// Ties favor insertion order: when two primitives are both hit at exactly
/// the same distance, strictly inside the search interval, the scene
/// resolves to the one inserted first.
pub proof fn lemma_scene_tie_break(p1: PrimV, p2: PrimV, r: RayV, t_min: int, t_max: int)
    requires
        prim_hit(p1, r, t_min, t_max) is Some,
        prim_hit(p2, r, t_min, t_max) is Some,
        prim_hit(p1, r, t_min, t_max).unwrap().t == prim_hit(p2, r, t_min, t_max).unwrap().t,
        prim_hit(p1, r, t_min, t_max).unwrap().t < t_max,
    ensures
        world_hit(seq![p1, p2], r, t_min, t_max) == prim_hit(p1, r, t_min, t_max),
{
    let items = seq![p1, p2];
    let h1 = prim_hit(p1, r, t_min, t_max).unwrap();
    let s1 = world_step(items[0], r, t_min, t_max, t_max, None::<HitV>);
    assert(s1 == (h1.t, Some(h1)));
    let s2 = world_step(items[1], r, t_min, t_max, s1.0, s1.1);
    assert(s2 == (h1.t, Some(h1)));
    assert(world_scan(items, r, t_min, t_max, 0, t_max, None::<HitV>) == world_scan(
        items,
        r,
        t_min,
        t_max,
        1,
        s1.0,
        s1.1,
    ));
    assert(world_scan(items, r, t_min, t_max, 1, s1.0, s1.1) == world_scan(
        items,
        r,
        t_min,
        t_max,
        2,
        s2.0,
        s2.1,
    ));
    assert(world_scan(items, r, t_min, t_max, 2, s2.0, s2.1) == (s2.0, s2.1));
}

/// The scene: an insertion-ordered collection of primitives.
pub struct World {
    items: Vec<Primitive>,
}

impl View for World {
    type V = Seq<PrimV>;

    closed spec fn view(&self) -> Seq<PrimV> {
        Seq::new(self.items@.len(), |i: int| self.items@[i]@)
    }
}

impl World {
    /// An empty scene.
    pub fn new() -> (r: World)
        ensures
            r@ =~= Seq::<PrimV>::empty(),
    {
        World { items: Vec::new() }
    }

    /// Append a primitive; insertion order is kept.
    pub fn add_item(&mut self, hittable: Primitive)
        ensures
            final(self)@ =~= old(self)@.push(hittable@),
    {
        self.items.push(hittable);
    }

    /// Remove every primitive.
    pub fn clear(&mut self)
        ensures
            final(self)@ =~= Seq::<PrimV>::empty(),
    {
        self.items.clear();
    }

    /// The nearest hit across all primitives, or nothing if the ray misses
    /// the whole scene.
    pub fn hit(&self, ray: &Ray, t_min: Fx, t_max: Fx) -> (r: Option<HitRecord>)
        ensures
            opt_hit_view(r) == world_hit(self@, ray@, t_min@, t_max@),
    {
        let mut temp_record: Option<HitRecord> = None;
        let mut closest_so_far = t_max;
        let n = self.items.len();
        let mut i: usize = 0;
        while i < n
            invariant
                i <= n,
                n == self.items@.len(),
                world_scan(
                    self@,
                    ray@,
                    t_min@,
                    t_max@,
                    i as nat,
                    closest_so_far@,
                    opt_hit_view(temp_record),
                ) == world_scan(self@, ray@, t_min@, t_max@, 0, t_max@, None::<HitV>),
            decreases n - i,
        {
            let ghost c0 = closest_so_far@;
            let ghost b0 = opt_hit_view(temp_record);
            match self.items[i].hit(ray, t_min, t_max) {
                Some(hr) => {
                    if closest_so_far.gt(hr.t) {
                        closest_so_far = hr.t;
                        temp_record = Some(hr);
                    }
                },
                None => {},
            }
            proof {
                assert((closest_so_far@, opt_hit_view(temp_record)) == world_step(
                    self@[i as int],
                    ray@,
                    t_min@,
                    t_max@,
                    c0,
                    b0,
                ));
            }
            i = i + 1;
        }
        temp_record
    }
}

/// The value of the fraction `n / d` as the engine computes it.
pub open spec fn frac_v(n: int, d: int) -> int {
    fx_div(n * (FX_ONE_RAW as int), d * (FX_ONE_RAW as int))
}

/// The ground sphere of the showcase scene.
pub open spec fn ground_sphere_v() -> PrimV {
    PrimV::Sphere(
        SphereV {
            center: V3 { x: 0, y: -1000 * (FX_ONE_RAW as int), z: 0 },
            radius: 1000 * (FX_ONE_RAW as int),
            material: MatV::Lambertian {
                albedo: C4 { r: frac_v(1, 2), g: frac_v(1, 2), b: frac_v(1, 2), a: FX_ONE_RAW as int },
            },
        },
    )
}

/// The large glass sphere of the showcase scene.
pub open spec fn big_glass_v() -> PrimV {
    PrimV::Sphere(
        SphereV {
            center: V3 { x: 0, y: FX_ONE_RAW as int, z: 0 },
            radius: FX_ONE_RAW as int,
            material: MatV::Dielectric { ir: frac_v(3, 2) },
        },
    )
}

/// The large diffuse sphere of the showcase scene.
pub open spec fn big_diffuse_v() -> PrimV {
    PrimV::Sphere(
        SphereV {
            center: V3 { x: -4 * (FX_ONE_RAW as int), y: FX_ONE_RAW as int, z: 0 },
            radius: FX_ONE_RAW as int,
            material: MatV::Lambertian {
                albedo: C4 {
                    r: frac_v(2, 5),
                    g: frac_v(1, 5),
                    b: frac_v(1, 10),
                    a: FX_ONE_RAW as int,
                },
            },
        },
    )
}

/// The large metal sphere of the showcase scene.
pub open spec fn big_metal_v() -> PrimV {
    PrimV::Sphere(
        SphereV {
            center: V3 { x: 4 * (FX_ONE_RAW as int), y: FX_ONE_RAW as int, z: 0 },
            radius: FX_ONE_RAW as int,
            material: MatV::Metal {
                albedo: C4 {
                    r: frac_v(7, 10),
                    g: frac_v(3, 5),
                    b: frac_v(1, 2),
                    a: FX_ONE_RAW as int,
                },
                fuzz: 0,
            },
        },
    )
}

/// What holds of every randomly placed small sphere: radius one fifth,
/// resting at height one fifth, placed away from the large metal sphere's
/// ground spot, and one of the three material shapes with channels in the
/// ranges the draws allow.
pub open spec fn small_sphere_ok(p: PrimV) -> bool {
    match p {
        PrimV::Sphere(s) => s.radius == frac_v(1, 5) && s.center.y == frac_v(1, 5) && v3_len(
            v3_sub(
                s.center,
                V3 { x: 4 * (FX_ONE_RAW as int), y: frac_v(1, 5), z: 0 },
            ),
        ) > frac_v(9, 10) && match (
        s.material) {
            MatV::Lambertian { albedo } => 0 <= albedo.r < FX_ONE_RAW as int && 0 <= albedo.g
                < FX_ONE_RAW as int && 0 <= albedo.b < FX_ONE_RAW as int && albedo.a == FX_ONE_RAW
                as int,
            MatV::Metal { albedo, fuzz } => frac_v(1, 2) <= albedo.r < FX_ONE_RAW as int && frac_v(
                1,
                2,
            ) <= albedo.g < FX_ONE_RAW as int && frac_v(1, 2) <= albedo.b < FX_ONE_RAW as int
                && albedo.a == FX_ONE_RAW as int && frac_v(1, 2) <= fuzz < FX_ONE_RAW as int,
            MatV::Dielectric { ir } => ir == frac_v(3, 2),
        },
        PrimV::Mesh(m) => false,
    }
}

impl World {
    /// The showcase scene: a huge ground sphere, a grid of randomly placed
    /// small spheres of random material, and three large spheres.  Whatever
    /// the draws, the result has the fixed spheres in place and every small
    /// sphere well-formed.
    /// Maybe place one random small sphere for grid cell `(a, b)`.
    #[verifier::spinoff_prover]
    #[verifier::rlimit(100)]
    fn add_random_small_sphere(world: &mut World, rng: &mut Rng, a: i32, b: i32)
        ensures
            old(world)@.len() <= final(world)@.len() <= old(world)@.len() + 1,
            forall|k: int| 0 <= k < old(world)@.len() ==> final(world)@[k] == old(world)@[k],
            forall|k: int|
                old(world)@.len() <= k < final(world)@.len() ==> small_sphere_ok(final(world)@[k]),
    {
        let one = Fx::one();
        let half = Fx::fraction(1, 2);
        let fifth = Fx::fraction(1, 5);
        let choose_mat = random_normalized(rng);
        let center = Vec3::new(
            Fx::from_int(a).add(Fx::fraction(9, 10).mul(random_normalized(rng))),
            fifth,
            Fx::from_int(b).add(Fx::fraction(9, 10).mul(random_normalized(rng))),
        );
        if center.sub(Vec3::new(Fx::from_int(4), fifth, Fx::zero())).len().gt(
            Fx::fraction(9, 10),
        ) {
            if choose_mat.lt(Fx::fraction(4, 5)) {
                let a1 = Vec3::random(rng);
                let a2 = Vec3::random(rng);
                let albedo = a1.mul(a2);
                proof {
                    crate::fx::lemma_fx_mul_unit(a1@.x, a2@.x);
                    crate::fx::lemma_fx_mul_unit(a1@.y, a2@.y);
                    crate::fx::lemma_fx_mul_unit(a1@.z, a2@.z);
                }
                let albedo = Color::new(albedo.x, albedo.y, albedo.z, one);
                let mat = Material::Lambertian { albedo };
                world.add_item(Primitive::Sphere(Sphere::new(center, fifth, mat)));
            } else if choose_mat.lt(Fx::fraction(19, 20)) {
                proof {
                    crate::fx::lemma_half_value();
                }
                let albedo = Vec3::random_range(rng, half, one);
                let fuzz = random_range(rng, half, one);
                let albedo = Color::new(albedo.x, albedo.y, albedo.z, one);
                let mat = Material::Metal { albedo, fuzz };
                world.add_item(Primitive::Sphere(Sphere::new(center, fifth, mat)));
            } else {
                let mat = Material::Dielectric { ir: Fx::fraction(3, 2) };
                world.add_item(Primitive::Sphere(Sphere::new(center, fifth, mat)));
            }
        }
    }

    /// The showcase scene: a huge ground sphere, a grid of randomly placed
    /// small spheres of random material, and three large spheres.  Whatever
    /// the draws, the result has the fixed spheres in place and every small
    /// sphere well-formed.
    pub fn random_scene(rng: &mut Rng) -> (r: World)
        ensures
            4 <= r@.len() <= 488,
            r@[0] == ground_sphere_v(),
            r@[r@.len() - 3] == big_glass_v(),
            r@[r@.len() - 2] == big_diffuse_v(),
            r@[r@.len() - 1] == big_metal_v(),
            forall|k: int| 1 <= k < r@.len() - 3 ==> small_sphere_ok(r@[k]),
    {
        let mut world = World::new();
        let half = Fx::fraction(1, 2);
        let one = Fx::one();
        let ground_material = Material::Lambertian {
            albedo: Color::new(half, half, half, one),
        };
        world.add_item(
            Primitive::Sphere(
                Sphere::new(
                    Vec3::new(Fx::zero(), Fx::from_int(-1000), Fx::zero()),
                    Fx::from_int(1000),
                    ground_material,
                ),
            ),
        );
        let mut a: i32 = -11;
        while a < 11
            invariant
                -11 <= a <= 11,
                1 <= world@.len() <= 1 + 22 * ((a as int) + 11),
                world@[0] == ground_sphere_v(),
                forall|k: int| 1 <= k < world@.len() ==> small_sphere_ok(world@[k]),
            decreases 11 - a,
        {
            let mut b: i32 = -11;
            while b < 11
                invariant
                    -11 <= a < 11,
                    -11 <= b <= 11,
                    1 <= world@.len() <= 1 + 22 * ((a as int) + 11) + ((b as int) + 11),
                    world@[0] == ground_sphere_v(),
                    forall|k: int| 1 <= k < world@.len() ==> small_sphere_ok(world@[k]),
                decreases 11 - b,
            {
                World::add_random_small_sphere(&mut world, rng, a, b);
                b = b + 1;
            }
            a = a + 1;
        }
        let material1 = Material::Dielectric { ir: Fx::fraction(3, 2) };
        world.add_item(
            Primitive::Sphere(
                Sphere::new(Vec3::new(Fx::zero(), one, Fx::zero()), one, material1),
            ),
        );
        let material2 = Material::Lambertian {
            albedo: Color::new(
                Fx::fraction(2, 5),
                Fx::fraction(1, 5),
                Fx::fraction(1, 10),
                one,
            ),
        };
        world.add_item(
            Primitive::Sphere(
                Sphere::new(Vec3::new(Fx::from_int(-4), one, Fx::zero()), one, material2),
            ),
        );
        let material3 = Material::Metal {
            albedo: Color::new(
                Fx::fraction(7, 10),
                Fx::fraction(3, 5),
                Fx::fraction(1, 2),
                one,
            ),
            fuzz: Fx::zero(),
        };
        world.add_item(
            Primitive::Sphere(
                Sphere::new(Vec3::new(Fx::from_int(4), one, Fx::zero()), one, material3),
            ),
        );
        world
    }
}


} // verus!
