//! Triangles and triangle meshes.
//!
//! Triangle intersection is the Moeller-Trumbore algorithm.  In fixed point
//! the smallest representable positive scalar plays the role of the
//! degeneracy epsilon: a ray is rejected as parallel exactly when the
//! edge/direction determinant is zero.

use vstd::prelude::*;
use crate::fx::{Fx, fx_add, fx_mul, fx_div, FX_ONE_RAW};
use crate::vec3::{
    Vec3, V3, v3_add, v3_sub, v3_cross, v3_dot, v3_unit, v3_div_s,
};
use crate::ray::{Ray, RayV, ray_at};
use crate::color::Color;
use crate::material::{Material, MatV};
use crate::hit::{HitRecord, HitV, hit_record_new};

verus! {

/// The model of a triangle: vertices, derived edges and face normal.
pub struct TriangleV {
    pub v0: V3,
    pub v1: V3,
    pub v2: V3,
    pub edge1: V3,
    pub edge2: V3,
    pub normal: V3,
}

/// A triangle with precomputed edge vectors and unit face normal.
#[derive(Clone, Copy, Debug)]
pub struct Triangle {
    v0: Vec3,
    v1: Vec3,
    v2: Vec3,
    edge1: Vec3,
    edge2: Vec3,
    normal: Vec3,
}

impl View for Triangle {
    type V = TriangleV;

    closed spec fn view(&self) -> TriangleV {
        TriangleV {
            v0: self.v0@,
            v1: self.v1@,
            v2: self.v2@,
            edge1: self.edge1@,
            edge2: self.edge2@,
            normal: self.normal@,
        }
    }
}

/// The triangle spanned by three vertices.
pub open spec fn tri_new(v0: V3, v1: V3, v2: V3) -> TriangleV {
    let edge1 = v3_sub(v1, v0);
    let edge2 = v3_sub(v2, v0);
    TriangleV { v0, v1, v2, edge1, edge2, normal: v3_unit(v3_cross(edge1, edge2)) }
}

/// Centroid of a triangle.
pub open spec fn tri_center(t: TriangleV) -> V3 {
    v3_div_s(v3_add(v3_add(t.v0, t.v1), t.v2), 3 * FX_ONE_RAW as int)
}

/// The first barycentric coordinate the intersection test computes.
pub open spec fn tri_bary_u(r: RayV, tri: TriangleV) -> int {
    let h = v3_cross(r.direction, tri.edge2);
    let a = v3_dot(tri.edge1, h);
    let f = fx_div(FX_ONE_RAW as int, a);
    let s = v3_sub(r.origin, tri.v0);
    fx_mul(f, v3_dot(s, h))
}

/// The second barycentric coordinate the intersection test computes.
pub open spec fn tri_bary_v(r: RayV, tri: TriangleV) -> int {
    let h = v3_cross(r.direction, tri.edge2);
    let a = v3_dot(tri.edge1, h);
    let f = fx_div(FX_ONE_RAW as int, a);
    let s = v3_sub(r.origin, tri.v0);
    let q = v3_cross(s, tri.edge1);
    fx_mul(f, v3_dot(r.direction, q))
}

/// Moeller-Trumbore ray/triangle intersection: the parametric distance,
/// the hit point and the face normal, or nothing for a parallel ray,
/// coordinates outside the triangle, or a distance below the
/// self-intersection guard `t_min`.
pub open spec fn tri_intersect(t_min: int, r: RayV, tri: TriangleV) -> Option<(int, V3, V3)> {
    let h = v3_cross(r.direction, tri.edge2);
    let a = v3_dot(tri.edge1, h);
    if -1 < a && a < 1 {
        // Ray is parallel to the triangle plane
        None
    } else {
        let f = fx_div(FX_ONE_RAW as int, a);
        let s = v3_sub(r.origin, tri.v0);
        let u = fx_mul(f, v3_dot(s, h));
        if u < 0 || u > FX_ONE_RAW as int {
            None
        } else {
            let q = v3_cross(s, tri.edge1);
            let v = fx_mul(f, v3_dot(r.direction, q));
            if v < 0 || fx_add(u, v) > FX_ONE_RAW as int {
                None
            } else {
                let t = fx_mul(f, v3_dot(tri.edge2, q));
                if t > 1 && t >= t_min {
                    Some((t, ray_at(r, t), tri.normal))
                } else {
                    None
                }
            }
        }
    }
}

/// Any reported intersection has barycentric coordinates inside the
/// triangle: `u >= 0`, `v >= 0` and `u + v <= 1`.
pub proof fn lemma_tri_bary_in_range(t_min: int, r: RayV, tri: TriangleV)
    requires
        tri_intersect(t_min, r, tri) is Some,
    ensures
        0 <= tri_bary_u(r, tri) <= FX_ONE_RAW as int,
        0 <= tri_bary_v(r, tri),
        fx_add(tri_bary_u(r, tri), tri_bary_v(r, tri)) <= FX_ONE_RAW as int,
{
}

/// Any reported intersection point lies on the ray at the reported
/// parametric distance, which is positive and at least `t_min`, and the
/// reported normal is the triangle's face normal.
pub proof fn lemma_tri_intersect_on_ray(t_min: int, r: RayV, tri: TriangleV)
    requires
        tri_intersect(t_min, r, tri) is Some,
    ensures
        ({
            let (t, point, normal) = tri_intersect(t_min, r, tri).unwrap();
            &&& point == ray_at(r, t)
            &&& t > 1
            &&& t >= t_min
            &&& normal == tri.normal
        }),
{
}

impl Triangle {
    /// The triangle spanned by three vertices, with derived edge vectors and
    /// unit face normal.
    pub fn new(v0: Vec3, v1: Vec3, v2: Vec3) -> (r: Triangle)
        ensures
            r@ == tri_new(v0@, v1@, v2@),
    {
        let edge1 = v1.sub(v0);
        let edge2 = v2.sub(v0);
        let normal = edge1.cross(edge2).unit_vector();
        Triangle { v0, v1, v2, edge1, edge2, normal }
    }

    /// Centroid of the triangle.
    pub fn center(&self) -> (r: Vec3)
        ensures
            r@ == tri_center(self@),
    {
        self.v0.add(self.v1).add(self.v2).div_s(Fx::from_int(3))
    }
}

/// Run the intersection test against one triangle.
fn intersect_ray_triangle_mt(t_min: Fx, ray: &Ray, triangle: &Triangle) -> (r: Option<(
    Fx,
    Vec3,
    Vec3,
)>)
    ensures
        match (r, tri_intersect(t_min@, ray@, triangle@)) {
            (Some((t, p, n)), Some((ts, ps, ns))) => t@ == ts && p@ == ps && n@ == ns,
            (None, None) => true,
            _ => false,
        },
{
    let eps = Fx::from_raw(1);
    let h = ray.direction().cross(triangle.edge2);
    let a = triangle.edge1.dot(h);
    if a.gt(eps.neg()) && a.lt(eps) {
        // Ray is parallel to the triangle plane
        return None;
    }
    let f = Fx::one().div(a);
    let s = ray.origin().sub(triangle.v0);
    let u = f.mul(s.dot(h));
    if u.lt(Fx::zero()) || u.gt(Fx::one()) {
        return None;
    }
    let q = s.cross(triangle.edge1);
    let v = f.mul(ray.direction().dot(q));
    if v.lt(Fx::zero()) || u.add(v).gt(Fx::one()) {
        return None;
    }
    let t = f.mul(triangle.edge2.dot(q));
    if t.gt(eps) && t.ge(t_min) {
        return Some((t, ray.at(t), triangle.normal));
    }
    None
}

/// The model of a mesh:/// The model of a mesh: its triangles, one shared material, the centroid.
pub struct MeshV {
    pub triangles: Seq<TriangleV>,
    pub material: MatV,
    pub center: V3,
}

/// A collection of triangles sharing one material.
pub struct Mesh {
    triangles: Vec<Triangle>,
    material: Material,
    center: Vec3,
}

impl View for Mesh {
    type V = MeshV;

    closed spec fn view(&self) -> MeshV {
        MeshV {
            triangles: Seq::new(self.triangles@.len(), |i: int| self.triangles@[i]@),
            material: self.material@,
            center: self.center@,
        }
    }
}

/// One step of the mesh scan: fold the intersection with triangle `tri`
/// into the closest parametric distance so far; ties keep the later
/// triangle.  The record's normal is the front-face-corrected one, always
/// opposing the incoming ray.
pub open spec fn mesh_step(
    tri: TriangleV,
    mat: MatV,
    r: RayV,
    t_min: int,
    closest: int,
    best: Option<HitV>,
) -> (int, Option<HitV>) {
    match tri_intersect(t_min, r, tri) {
        Some((t, point, normal)) => {
            if t <= closest {
                (t, Some(hit_record_new(t, point, normal, r, mat)))
            } else {
                (closest, best)
            }
        },
        None => (closest, best),
    }
}

/// Scan the triangles from index `i` on.
pub open spec fn mesh_scan(
    tris: Seq<TriangleV>,
    mat: MatV,
    r: RayV,
    t_min: int,
    i: nat,
    closest: int,
    best: Option<HitV>,
) -> (int, Option<HitV>)
    decreases tris.len() - i,
{
    if i >= tris.len() {
        (closest, best)
    } else {
        let step = mesh_step(tris[i as int], mat, r, t_min, closest, best);
        mesh_scan(tris, mat, r, t_min, i + 1, step.0, step.1)
    }
}

/// The nearest mesh hit within `[t_min, t_max]`.
pub open spec fn mesh_hit(m: MeshV, r: RayV, t_min: int, t_max: int) -> Option<HitV> {
    mesh_scan(m.triangles, m.material, r, t_min, 0, t_max, None::<HitV>).1
}

proof fn lemma_mesh_scan_material(
    tris: Seq<TriangleV>,
    mat: MatV,
    r: RayV,
    t_min: int,
    i: nat,
    closest: int,
    best: Option<HitV>,
)
    requires
        i <= tris.len(),
        best is Some ==> best.unwrap().material == mat,
    ensures
        ({
            let res = mesh_scan(tris, mat, r, t_min, i, closest, best);
            res.1 is Some ==> res.1.unwrap().material == mat
        }),
    decreases tris.len() - i,
{
    if i < tris.len() {
        let step = mesh_step(tris[i as int], mat, r, t_min, closest, best);
        lemma_mesh_scan_material(tris, mat, r, t_min, i + 1, step.0, step.1);
    }
}

/// A record a mesh reports carries the mesh's shared material.
pub proof fn lemma_mesh_hit_material(m: MeshV, r: RayV, t_min: int, t_max: int)
    ensures
        mesh_hit(m, r, t_min, t_max) is Some ==> mesh_hit(m, r, t_min, t_max).unwrap().material
            == m.material,
{
    lemma_mesh_scan_material(m.triangles, m.material, r, t_min, 0, t_max, None::<HitV>);
}

proof fn lemma_mesh_scan_normal(
    tris: Seq<TriangleV>,
    mat: MatV,
    r: RayV,
    t_min: int,
    i: nat,
    closest: int,
    best: Option<HitV>,
)
    requires
        i <= tris.len(),
        best is Some ==> v3_dot(best.unwrap().normal, r.direction) < 0,
        forall|j: int|
            0 <= j < tris.len() ==> crate::vec3::v3_in_range(#[trigger] tris[j].normal)
                && v3_dot(r.direction, tris[j].normal) != 0,
    ensures
        ({
            let res = mesh_scan(tris, mat, r, t_min, i, closest, best);
            res.1 is Some ==> v3_dot(res.1.unwrap().normal, r.direction) < 0
        }),
    decreases tris.len() - i,
{
    if i < tris.len() {
        let step = mesh_step(tris[i as int], mat, r, t_min, closest, best);
        match tri_intersect(t_min, r, tris[i as int]) {
            Some((t, point, normal)) => {
                crate::hit::lemma_hit_normal_opposes(t, point, tris[i as int].normal, r, mat);
            },
            None => {},
        }
        lemma_mesh_scan_normal(tris, mat, r, t_min, i + 1, step.0, step.1);
    }
}

/// The normal of any reported mesh hit opposes the incoming ray:
/// `dot(normal, direction) < 0`.  Rays exactly grazing a triangle plane,
/// whose direction is orthogonal to that face normal, are excluded.
pub proof fn lemma_mesh_normal_opposes(m: MeshV, r: RayV, t_min: int, t_max: int)
    requires
        mesh_hit(m, r, t_min, t_max) is Some,
        forall|j: int|
            0 <= j < m.triangles.len() ==> crate::vec3::v3_in_range(
                #[trigger] m.triangles[j].normal,
            ) && v3_dot(r.direction, m.triangles[j].normal) != 0,
    ensures
        v3_dot(mesh_hit(m, r, t_min, t_max).unwrap().normal, r.direction) < 0,
{
    lemma_mesh_scan_normal(m.triangles, m.material, r, t_min, 0, t_max, None::<HitV>);
}

/// Sum of the centroids/// Sum of the centroids of the triangles over the vertex triples.
pub open spec fn centers_sum(triples: Seq<(V3, V3, V3)>, i: nat) -> V3
    decreases triples.len() - i,
{
    if i >= triples.len() {
        V3 { x: 0, y: 0, z: 0 }
    } else {
        let t = tri_new(triples[i as int].0, triples[i as int].1, triples[i as int].2);
        v3_add(tri_center(t), centers_sum(triples, i + 1))
    }
}

/// The model of the mesh built from vertex triples.
pub open spec fn mesh_from_triples(triples: Seq<(V3, V3, V3)>, mat: MatV) -> MeshV {
    MeshV {
        triangles: Seq::new(
            triples.len(),
            |i: int| tri_new(triples[i].0, triples[i].1, triples[i].2),
        ),
        material: mat,
        center: v3_div_s(centers_sum(triples, 0), triples.len() * (FX_ONE_RAW as int)),
    }
}

pub open spec fn opt_hit_view(o: Option<HitRecord>) -> Option<HitV> {
    match o {
        Some(h) => Some(h@),
        None => None,
    }
}

impl Mesh {
    /// A mesh of one triangle.
    pub fn new(v0: Vec3, v1: Vec3, v2: Vec3, material: Material) -> (r: Mesh)
        ensures
            r@.triangles =~= seq![tri_new(v0@, v1@, v2@)],
            r@.material == material@,
            r@.center == tri_center(tri_new(v0@, v1@, v2@)),
    {
        let triangle = Triangle::new(v0, v1, v2);
        let center = triangle.center();
        let mut triangles: Vec<Triangle> = Vec::new();
        triangles.push(triangle);
        Mesh { triangles, center, material }
    }

    /// Build one triangle per vertex triple, as a mesh-import collaborator
    /// hands them over; derives each triangle's edges and normal and the
    /// mesh centroid.
    pub fn from_triples(triples: Vec<(Vec3, Vec3, Vec3)>) -> (r: Mesh)
        requires
            triples@.len() <= 0xFFFF_FFFF,
        ensures
            r@ == mesh_from_triples(
                Seq::new(triples@.len(), |i: int| (triples@[i].0@, triples@[i].1@, triples@[i].2@)),
                MatV::Lambertian {
                    albedo: crate::color::C4 {
                        r: 0,
                        g: FX_ONE_RAW as int,
                        b: FX_ONE_RAW as int,
                        a: FX_ONE_RAW as int,
                    },
                },
            ),
    {
        let ghost model: Seq<(V3, V3, V3)> = Seq::new(
            triples@.len(),
            |i: int| (triples@[i].0@, triples@[i].1@, triples@[i].2@),
        );
        let mut triangles: Vec<Triangle> = Vec::new();
        let mut centers = Vec3::new(Fx::zero(), Fx::zero(), Fx::zero());
        let n = triples.len();
        let mut i: usize = 0;
        // Accumulate from the back so the running sum matches the
        // right-folded specification.
        while i < n
            invariant
                i <= n,
                n == triples@.len(),
                model == Seq::new(
                    triples@.len(),
                    |k: int| (triples@[k].0@, triples@[k].1@, triples@[k].2@),
                ),
                centers@ == centers_sum(model, (n - i) as nat),
                triangles@.len() == i,
                forall|k: int|
                    0 <= k < i ==> triangles@[k]@ == tri_new(
                        model[n - 1 - k].0,
                        model[n - 1 - k].1,
                        model[n - 1 - k].2,
                    ),
            decreases n - i,
        {
            let idx = n - 1 - i;
            let (v0, v1, v2) = triples[idx];
            let triangle = Triangle::new(v0, v1, v2);
            centers = triangle.center().add(centers);
            triangles.push(triangle);
            i = i + 1;
        }
        // The loop built the triangles in reverse; put them in order.
        let mut ordered: Vec<Triangle> = Vec::new();
        let mut j: usize = 0;
        while j < n
            invariant
                j <= n,
                n == triangles@.len(),
                ordered@.len() == j,
                forall|k: int|
                    0 <= k < j ==> ordered@[k] == triangles@[n - 1 - k],
            decreases n - j,
        {
            let t = triangles[n - 1 - j];
            ordered.push(t);
            j = j + 1;
        }
        let count = Fx::from_u32(n as u32);
        let center = centers.div_s(count);
        let material = Material::Lambertian {
            albedo: Color::new(Fx::zero(), Fx::one(), Fx::one(), Fx::one()),
        };
        let r = Mesh { triangles: ordered, center, material };
        proof {
            assert(r@.triangles =~= mesh_from_triples(model, r@.material).triangles);
            assert(r@ == mesh_from_triples(model, r@.material));
        }
        r
    }

    /// The nearest triangle hit along the ray: the accepted intersection
    /// of least parametric distance in `[t_min, t_max]`, or nothing.
    pub fn hit(&self, ray: &Ray, t_min: Fx, t_max: Fx) -> (r: Option<HitRecord>)
        ensures
            opt_hit_view(r) == mesh_hit(self@, ray@, t_min@, t_max@),
    {
        let mut hit: Option<HitRecord> = None;
        let mut closest_so_far = t_max;
        let n = self.triangles.len();
        let mut i: usize = 0;
        while i < n
            invariant
                i <= n,
                n == self.triangles@.len(),
                mesh_scan(
                    self@.triangles,
                    self@.material,
                    ray@,
                    t_min@,
                    i as nat,
                    closest_so_far@,
                    opt_hit_view(hit),
                ) == mesh_scan(
                    self@.triangles,
                    self@.material,
                    ray@,
                    t_min@,
                    0,
                    t_max@,
                    None::<HitV>,
                ),
            decreases n - i,
        {
            let ghost c0 = closest_so_far@;
            let ghost b0 = opt_hit_view(hit);
            match intersect_ray_triangle_mt(t_min, ray, &self.triangles[i]) {
                Some((t, point, normal)) => {
                    let rec = HitRecord::new(t, point, normal, ray, self.material);
                    if t.le(closest_so_far) {
                        closest_so_far = t;
                        hit = Some(rec);
                    }
                },
                None => {},
            }
            proof {
                assert((closest_so_far@, opt_hit_view(hit)) == mesh_step(
                    self@.triangles[i as int],
                    self@.material,
                    ray@,
                    t_min@,
                    c0,
                    b0,
                ));
            }
            i = i + 1;
        }
        hit
    }
}

} // verus!
