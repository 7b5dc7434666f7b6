use raytracer::clock::Clock;
use raytracer::hit::HitRecord;
use raytracer::quaternion::Quaternion;
use raytracer::color::Color;
use raytracer::fx::{clamp, Fx};
use raytracer::material::Material;
use raytracer::mesh::Mesh;
use raytracer::objects::{Primitive, Sphere, World};
use raytracer::ray::Ray;
use raytracer::rng::{random_normalized, random_range, Rng};
use raytracer::trig::degrees_to_radians;
use raytracer::vec3::Vec3;
use raytracer::watch::CfgWatcher;

/// The fixed-point scalar nearest to `x`.
fn fx(x: f64) -> Fx {
    Fx::from_raw((x * 65536.0).round() as i64)
}

fn v3(x: f64, y: f64, z: f64) -> Vec3 {
    Vec3::new(fx(x), fx(y), fx(z))
}

#[test]
fn fx_arithmetic_exact_values() {
    assert_eq!(Fx::fraction(1, 2).raw(), 32768);
    assert_eq!(Fx::from_int(3).raw(), 3 * 65536);
    assert_eq!(fx(1.5).mul(fx(2.0)), fx(3.0));
    assert_eq!(fx(3.0).div(fx(2.0)), fx(1.5));
    assert_eq!(Fx::from_int(4).nsqrt(), Fx::from_int(2));
    assert_eq!(fx(-2.5).nabs(), fx(2.5));
    assert_eq!(fx(-1.5).nsqrd(), fx(2.25));
    assert_eq!(Fx::min(fx(1.0), fx(2.0)), fx(1.0));
    assert_eq!(Fx::max(fx(1.0), fx(2.0)), fx(2.0));
    assert_eq!(clamp(fx(3.0), fx(0.0), fx(1.0)), fx(1.0));
    assert_eq!(clamp(fx(-3.0), fx(0.0), fx(1.0)), fx(0.0));
    assert_eq!(clamp(fx(0.5), fx(0.0), fx(1.0)), fx(0.5));
}

#[test]
fn fx_truncation_is_toward_zero() {
    // 0.7 * 0.7 = 0.49; the numerator product rounds toward zero on both
    // signs, so negation distributes over the product exactly.
    let p = fx(0.7).mul(fx(0.7));
    let n = fx(-0.7).mul(fx(0.7));
    assert_eq!(n, p.neg());
}

#[test]
fn trig_reference_points() {
    assert_eq!(Fx::pi().raw(), 205887);
    assert_eq!(fx(0.0).nsin(), fx(0.0));
    assert_eq!(fx(0.0).ncos(), fx(1.0));
    assert_eq!(degrees_to_radians(Fx::from_int(180)), Fx::pi());
    // tan(45 degrees) is one, up to the polynomial's error.
    let t = degrees_to_radians(Fx::from_int(45)).ntan();
    assert!((t.raw() - 65536).abs() < 300, "tan(45deg) = {}", t.raw());
    // sin(pi/2) is one, up to the polynomial's error.
    let s = Fx::pi().div(Fx::from_int(2)).nsin();
    assert!((s.raw() - 65536).abs() < 50, "sin(pi/2) = {}", s.raw());
}

#[test]
fn ray_at_walks_the_parameter() {
    let ray = Ray::new(v3(1.0, 2.0, 3.0), v3(0.0, 0.0, -2.0));
    assert_eq!(ray.at(fx(0.5)), v3(1.0, 2.0, 2.0));
    assert_eq!(ray.origin(), v3(1.0, 2.0, 3.0));
    assert_eq!(ray.direction(), v3(0.0, 0.0, -2.0));
}

#[test]
fn reflect_mirrors_about_the_normal() {
    let v = v3(1.0, -1.0, 0.0);
    let n = v3(0.0, 1.0, 0.0);
    assert_eq!(v.reflect(n), v3(1.0, 1.0, 0.0));
}

#[test]
fn sphere_hit_reports_exact_root_and_opposing_normal() {
    let mat = Material::Lambertian { albedo: Color::new(fx(0.5), fx(0.5), fx(0.5), fx(1.0)) };
    let sphere = Sphere::new(v3(0.0, 0.0, -1.0), fx(0.5), mat);
    let ray = Ray::new(v3(0.0, 0.0, 0.0), v3(0.0, 0.0, -1.0));
    let hit = sphere.hit(&ray, fx(0.001), Fx::infinity()).expect("the ray aims at the sphere");
    assert_eq!(hit.t, fx(0.5));
    assert_eq!(hit.point, v3(0.0, 0.0, -0.5));
    assert_eq!(hit.normal, v3(0.0, 0.0, 1.0));
    assert!(hit.front_face);
    // The corrected normal opposes the incoming ray.
    assert!(hit.normal.dot(ray.direction()).lt(Fx::zero()));
}

#[test]
fn sphere_miss_and_out_of_interval_yield_none() {
    let mat = Material::Lambertian { albedo: Color::new(fx(0.5), fx(0.5), fx(0.5), fx(1.0)) };
    let sphere = Sphere::new(v3(0.0, 0.0, -1.0), fx(0.5), mat);
    // Pointing away from the sphere.
    let ray = Ray::new(v3(0.0, 0.0, 0.0), v3(0.0, 0.0, 1.0));
    assert!(sphere.hit(&ray, fx(0.001), Fx::infinity()).is_none());
    // The root lies beyond the search interval.
    let ray = Ray::new(v3(0.0, 0.0, 0.0), v3(0.0, 0.0, -1.0));
    assert!(sphere.hit(&ray, fx(0.001), fx(0.25)).is_none());
}

#[test]
fn negative_radius_flips_the_normal() {
    let mat = Material::Dielectric { ir: fx(1.5) };
    let shell = Sphere::new(v3(0.0, 0.0, -1.0), fx(-0.5), mat);
    let ray = Ray::new(v3(0.0, 0.0, 0.0), v3(0.0, 0.0, -1.0));
    let hit = shell.hit(&ray, fx(0.001), Fx::infinity()).expect("the shell is still hit");
    assert_eq!(hit.t, fx(0.5));
    // The raw normal points inward, so the front-face flag flips.
    assert!(!hit.front_face);
    assert_eq!(hit.normal, v3(0.0, 0.0, 1.0));
}

#[test]
fn scene_tie_break_takes_the_first_inserted() {
    let red = Color::new(fx(0.9), fx(0.1), fx(0.1), fx(1.0));
    let blue = Color::new(fx(0.1), fx(0.1), fx(0.9), fx(1.0));
    let mut world = World::new();
    world.add_item(Primitive::Sphere(Sphere::new(
        v3(0.0, 0.0, -2.0),
        fx(0.5),
        Material::Lambertian { albedo: red },
    )));
    world.add_item(Primitive::Sphere(Sphere::new(
        v3(0.0, 0.0, -2.0),
        fx(0.5),
        Material::Lambertian { albedo: blue },
    )));
    let ray = Ray::new(v3(0.0, 0.0, 0.0), v3(0.0, 0.0, -1.0));
    let hit = world.hit(&ray, fx(0.001), Fx::infinity()).expect("both spheres are hit");
    match hit.material {
        Material::Lambertian { albedo } => assert_eq!(albedo, red),
        _ => panic!("the first sphere is diffuse"),
    }
}

#[test]
fn nearest_sphere_wins_regardless_of_order() {
    let far = Color::new(fx(0.9), fx(0.1), fx(0.1), fx(1.0));
    let near = Color::new(fx(0.1), fx(0.1), fx(0.9), fx(1.0));
    let mut world = World::new();
    world.add_item(Primitive::Sphere(Sphere::new(
        v3(0.0, 0.0, -3.0),
        fx(0.5),
        Material::Lambertian { albedo: far },
    )));
    world.add_item(Primitive::Sphere(Sphere::new(
        v3(0.0, 0.0, -2.0),
        fx(0.5),
        Material::Lambertian { albedo: near },
    )));
    let ray = Ray::new(v3(0.0, 0.0, 0.0), v3(0.0, 0.0, -1.0));
    let hit = world.hit(&ray, fx(0.001), Fx::infinity()).expect("both spheres are hit");
    assert_eq!(hit.t, fx(1.5));
    match hit.material {
        Material::Lambertian { albedo } => assert_eq!(albedo, near),
        _ => panic!("the nearer sphere is diffuse"),
    }
}

#[test]
fn empty_world_misses_and_clear_empties() {
    let ray = Ray::new(v3(0.0, 0.0, 0.0), v3(0.0, 0.0, -1.0));
    let mut world = World::new();
    assert!(world.hit(&ray, fx(0.001), Fx::infinity()).is_none());
    world.add_item(Primitive::Sphere(Sphere::new(
        v3(0.0, 0.0, -2.0),
        fx(0.5),
        Material::Dielectric { ir: fx(1.5) },
    )));
    assert!(world.hit(&ray, fx(0.001), Fx::infinity()).is_some());
    world.clear();
    assert!(world.hit(&ray, fx(0.001), Fx::infinity()).is_none());
}

#[test]
fn metal_scatter_absorbs_into_the_surface() {
    let mat = Material::Metal { albedo: Color::new(fx(0.8), fx(0.8), fx(0.8), fx(1.0)), fuzz: fx(0.0) };
    // A ray leaving the surface from inside: the mirror direction points
    // into the surface, so the sample is absorbed.
    let ray = Ray::new(v3(0.0, 0.0, 0.0), v3(0.0, 0.0, 1.0));
    let record = HitRecord {
        point: v3(0.0, 0.0, 1.0),
        normal: v3(0.0, 0.0, 1.0),
        material: mat,
        t: fx(1.0),
        front_face: true,
    };
    let mut rng = Rng::new(7);
    assert!(mat.scatter(&ray, &record, &mut rng).is_none());
}

#[test]
fn metal_fuzz_is_clamped_below_at_zero() {
    // A negative fuzz behaves as no fuzz: the scattered direction is the
    // exact mirror direction, whatever the sampler drew.
    let mat = Material::Metal {
        albedo: Color::new(fx(0.8), fx(0.8), fx(0.8), fx(1.0)),
        fuzz: fx(-0.5),
    };
    let ray = Ray::new(v3(0.0, 0.0, 0.0), v3(0.0, 0.0, -1.0));
    let record = HitRecord {
        point: v3(0.0, 0.0, -1.0),
        normal: v3(0.0, 0.0, 1.0),
        material: mat,
        t: fx(1.0),
        front_face: true,
    };
    for seed in 0..16u64 {
        let mut rng = Rng::new(seed);
        let (_, scattered) = mat.scatter(&ray, &record, &mut rng).expect(
            "the mirror direction leaves the surface",
        );
        assert_eq!(scattered.direction(), v3(0.0, 0.0, 1.0));
    }
}

#[test]
fn lambertian_scatter_never_returns_zero_direction() {
    let mat = Material::Lambertian { albedo: Color::new(fx(0.5), fx(0.5), fx(0.5), fx(1.0)) };
    let ray = Ray::new(v3(0.0, 0.0, 0.0), v3(0.0, 0.0, -1.0));
    let record = HitRecord {
        point: v3(0.0, 0.0, -0.5),
        normal: v3(0.0, 0.0, 1.0),
        material: mat,
        t: fx(0.5),
        front_face: true,
    };
    for seed in 0..32u64 {
        let mut rng = Rng::new(seed);
        let (attenuation, scattered) = mat.scatter(&ray, &record, &mut rng).expect(
            "diffuse scatter never absorbs",
        );
        assert_eq!(attenuation, Color::new(fx(0.5), fx(0.5), fx(0.5), fx(1.0)));
        assert!(!scattered.direction().near_zero());
    }
}

#[test]
fn dielectric_matched_index_does_not_bend_normal_incidence() {
    let mat = Material::Dielectric { ir: fx(1.0) };
    let ray = Ray::new(v3(0.0, 0.0, 0.0), v3(0.0, 0.0, -1.0));
    let record = HitRecord {
        point: v3(0.0, 0.0, -1.0),
        normal: v3(0.0, 0.0, 1.0),
        material: mat,
        t: fx(1.0),
        front_face: true,
    };
    for seed in 0..32u64 {
        let mut rng = Rng::new(seed);
        let (attenuation, scattered) = mat.scatter(&ray, &record, &mut rng).expect(
            "a dielectric never absorbs",
        );
        assert_eq!(attenuation, Color::new(fx(1.0), fx(1.0), fx(1.0), fx(1.0)));
        // Matching indices: the direction is unchanged, never reflected.
        assert_eq!(scattered.direction(), v3(0.0, 0.0, -1.0));
        assert_eq!(scattered.origin(), v3(0.0, 0.0, -1.0));
    }
}

#[test]
fn triangle_intersection_inside_barycentric_bounds() {
    let mat = Material::Lambertian { albedo: Color::new(fx(0.0), fx(1.0), fx(1.0), fx(1.0)) };
    let mesh = Mesh::new(v3(0.0, 0.0, -1.0), v3(1.0, 0.0, -1.0), v3(0.0, 1.0, -1.0), mat);
    let ray = Ray::new(v3(0.25, 0.25, 0.0), v3(0.0, 0.0, -1.0));
    let hit = mesh.hit(&ray, fx(0.0001), Fx::infinity()).expect("the ray pierces the triangle");
    assert_eq!(hit.t, fx(1.0));
    assert_eq!(hit.point, v3(0.25, 0.25, -1.0));
    assert_eq!(hit.normal, v3(0.0, 0.0, 1.0));
    // Outside the triangle: rejected by the barycentric bounds.
    let ray = Ray::new(v3(2.0, 2.0, 0.0), v3(0.0, 0.0, -1.0));
    assert!(mesh.hit(&ray, fx(0.0001), Fx::infinity()).is_none());
    // Parallel to the triangle plane: rejected as degenerate.
    let ray = Ray::new(v3(0.25, 0.25, 0.0), v3(1.0, 0.0, 0.0));
    assert!(mesh.hit(&ray, fx(0.0001), Fx::infinity()).is_none());
}

#[test]
fn mesh_t_is_the_parametric_distance() {
    // A non-unit direction: the parametric distance differs from the
    // euclidean one (which would be 1 here).
    let mat = Material::Lambertian { albedo: Color::new(fx(0.0), fx(1.0), fx(1.0), fx(1.0)) };
    let mesh = Mesh::new(v3(0.0, 0.0, -1.0), v3(1.0, 0.0, -1.0), v3(0.0, 1.0, -1.0), mat);
    let ray = Ray::new(v3(0.25, 0.25, 0.0), v3(0.0, 0.0, -2.0));
    let hit = mesh.hit(&ray, fx(0.0001), Fx::infinity()).expect("the ray pierces the triangle");
    assert_eq!(hit.t, fx(0.5));
    assert_eq!(hit.point, v3(0.25, 0.25, -1.0));
}

#[test]
fn mesh_honors_the_self_intersection_guard() {
    let mat = Material::Lambertian { albedo: Color::new(fx(0.0), fx(1.0), fx(1.0), fx(1.0)) };
    let mesh = Mesh::new(v3(0.0, 0.0, -1.0), v3(1.0, 0.0, -1.0), v3(0.0, 1.0, -1.0), mat);
    let ray = Ray::new(v3(0.25, 0.25, 0.0), v3(0.0, 0.0, -1.0));
    // The triangle lies at parametric distance 1; a guard beyond it
    // rejects the hit.
    assert!(mesh.hit(&ray, fx(2.0), Fx::infinity()).is_some() == false);
    assert!(mesh.hit(&ray, fx(0.5), Fx::infinity()).is_some());
}

#[test]
fn mesh_back_face_normal_still_opposes_the_ray() {
    let mat = Material::Lambertian { albedo: Color::new(fx(0.0), fx(1.0), fx(1.0), fx(1.0)) };
    let mesh = Mesh::new(v3(0.0, 0.0, -1.0), v3(1.0, 0.0, -1.0), v3(0.0, 1.0, -1.0), mat);
    // Approach the triangle from behind its face normal (0, 0, 1).
    let ray = Ray::new(v3(0.25, 0.25, -2.0), v3(0.0, 0.0, 1.0));
    let hit = mesh.hit(&ray, fx(0.0001), Fx::infinity()).expect("the ray pierces the triangle");
    assert!(!hit.front_face);
    assert_eq!(hit.normal, v3(0.0, 0.0, -1.0));
    assert!(hit.normal.dot(ray.direction()).lt(Fx::zero()));
}

#[test]
fn mesh_from_triples_builds_one_triangle_per_triple() {
    let triples = vec![
        (v3(0.0, 0.0, -1.0), v3(1.0, 0.0, -1.0), v3(0.0, 1.0, -1.0)),
        (v3(0.0, 0.0, -3.0), v3(1.0, 0.0, -3.0), v3(0.0, 1.0, -3.0)),
    ];
    let mesh = Mesh::from_triples(triples);
    let ray = Ray::new(v3(0.25, 0.25, 0.0), v3(0.0, 0.0, -1.0));
    // Both triangles are pierced; the nearer one wins.
    let hit = mesh.hit(&ray, fx(0.0001), Fx::infinity()).expect("the ray pierces the mesh");
    assert_eq!(hit.t, fx(1.0));
}

#[test]
fn random_draws_stay_in_their_ranges() {
    let mut rng = Rng::new(42);
    for _ in 0..200 {
        let u = random_normalized(&mut rng);
        assert!(0 <= u.raw() && u.raw() < 65536);
        let r = random_range(&mut rng, fx(2.0), fx(3.0));
        assert!(fx(2.0).le(r) && r.lt(fx(3.0)));
        let p = Vec3::random_in_unit_sphere(&mut rng);
        assert!(p.len_squared().lt(fx(1.0)));
        let d = Vec3::random_in_unit_disk(&mut rng);
        assert!(d.len_squared().lt(fx(1.0)));
        assert_eq!(d.z, fx(0.0));
    }
}

#[test]
fn random_scene_has_the_ground_sphere() {
    let mut rng = Rng::new(3);
    let world = World::random_scene(&mut rng);
    // Far outside the grid only the huge ground sphere can be hit.
    let ray = Ray::new(v3(-50.0, 10.0, 0.0), v3(0.0, -1.0, 0.0));
    let hit = world.hit(&ray, fx(0.001), Fx::infinity()).expect("the ground is below");
    match hit.material {
        Material::Lambertian { albedo } => {
            assert_eq!(albedo, Color::new(fx(0.5), fx(0.5), fx(0.5), fx(1.0)));
        },
        _ => panic!("the ground is diffuse"),
    }
}

#[test]
fn color_bytes_round_trip() {
    for n in 0..=255u8 {
        let c = Color::from_u8(n, n, n, n);
        let bytes = c.to_bytes();
        assert_eq!(bytes, [n, n, n, n]);
    }
}

#[test]
fn color_average_of_equal_samples_is_exact() {
    let c = Color::new(fx(0.25), fx(0.5), fx(0.75), fx(1.0));
    let mut acc = Color::new(fx(0.0), fx(0.0), fx(0.0), fx(0.0));
    for _ in 0..4 {
        acc.add_assign(c);
    }
    assert_eq!(acc.from_samples(4), c);
}

#[test]
fn color_mul_is_componentwise() {
    let a = Color::new(fx(0.5), fx(1.0), fx(0.25), fx(1.0));
    let b = Color::new(fx(0.5), fx(0.5), fx(1.0), fx(1.0));
    assert_eq!(a.mul(b), Color::new(fx(0.25), fx(0.5), fx(0.25), fx(1.0)));
}

#[test]
fn cfg_watcher_accepts_only_newer_configurations() {
    let mut watcher = CfgWatcher::new("cfg.json");
    assert_eq!(watcher.file(), "cfg.json");
    assert!(watcher.observe(5));
    assert!(!watcher.observe(5));
    assert!(!watcher.observe(4));
    assert!(watcher.observe(6));
    assert!(!watcher.observe(6));
}

#[test]
fn clock_measures_monotonically() {
    let mut clock = Clock::new();
    let a = clock.elapsed();
    let b = clock.stop_watch();
    // The stopwatch reading is taken after the first reading.
    assert!(b >= a);
}

#[test]
fn quaternion_identity_rotation_is_exact() {
    let v = v3(1.0, 2.0, 3.0);
    assert_eq!(Quaternion::identity().rotate_vec3(v), v);
    assert_eq!(Quaternion::default(), Quaternion::identity());
    let (w, x, y, z) = Quaternion::identity().wxyz();
    assert_eq!((w, x, y, z), (fx(1.0), fx(0.0), fx(0.0), fx(0.0)));
}
