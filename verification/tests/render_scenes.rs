use raytracer::camera::Camera;
use raytracer::color::Color;
use raytracer::fx::Fx;
use raytracer::material::Material;
use raytracer::objects::{Primitive, Sphere, World};
use raytracer::ray::Ray;
use raytracer::render::{ray_color, render, trace_pixel};
use raytracer::rng::Rng;
use raytracer::sprite::{CameraSettings, Perspective, ShadingModes, SpriteRenderer};
use raytracer::vec3::Vec3;

/// The fixed-point scalar nearest to `x`.
fn fx(x: f64) -> Fx {
    Fx::from_raw((x * 65536.0).round() as i64)
}

fn v3(x: f64, y: f64, z: f64) -> Vec3 {
    Vec3::new(fx(x), fx(y), fx(z))
}

/// A single gray diffuse sphere of radius one half in front of the camera.
fn one_sphere_world() -> World {
    let mut world = World::new();
    world.add_item(Primitive::Sphere(Sphere::new(
        v3(0.0, 0.0, -1.0),
        fx(0.5),
        Material::Lambertian { albedo: Color::new(fx(0.5), fx(0.5), fx(0.5), fx(1.0)) },
    )));
    world
}

/// A camera at the origin looking down the negative z axis with a
/// 90 degree vertical field of view and no aperture.
fn front_camera() -> Camera {
    Camera::new(
        v3(0.0, 0.0, 0.0),
        v3(0.0, 0.0, -1.0),
        v3(0.0, 1.0, 0.0),
        Fx::from_int(90),
        fx(1.0),
        fx(0.0),
        fx(1.0),
    )
}

#[test]
fn depth_zero_makes_every_pixel_the_miss_color() {
    let world = one_sphere_world();
    let camera = front_camera();
    let img = render(&world, &camera, 4, 4, 1, 0, 99);
    assert_eq!(img.pixels.len(), 16);
    for p in &img.pixels {
        assert_eq!(*p, Color::new(fx(0.0), fx(0.0), fx(0.0), fx(1.0)));
    }
    // The integrator itself returns the miss color at depth zero.
    let mut rng = Rng::new(1);
    let ray = Ray::new(v3(0.0, 0.0, 0.0), v3(0.3, 0.1, -1.0));
    assert_eq!(
        ray_color(&ray, &world, 0, &mut rng),
        Color::new(fx(0.0), fx(0.0), fx(0.0), fx(1.0))
    );
}

#[test]
fn rendering_twice_gives_identical_pixels() {
    let world = one_sphere_world();
    let camera = front_camera();
    let img1 = render(&world, &camera, 5, 5, 1, 4, 1234);
    let img2 = render(&world, &camera, 5, 5, 1, 4, 1234);
    assert_eq!(img1.pixels, img2.pixels);
    assert_eq!(img1.to_rgba_bytes(), img2.to_rgba_bytes());
}

#[test]
fn render_pixels_match_the_per_pixel_function() {
    // The parallel pass must place each pixel at its coordinate with the
    // vertical axis flipped, whatever order the workers ran in.
    let world = one_sphere_world();
    let camera = front_camera();
    let (w, h) = (4u32, 3u32);
    let img = render(&world, &camera, w, h, 2, 3, 77);
    for y in 0..h {
        for x in 0..w {
            let direct = trace_pixel(&world, &camera, x, h - 1 - y, w, h, 2, 3, 77);
            assert_eq!(img.pixels[(y * w + x) as usize], direct);
        }
    }
}

#[test]
fn center_pixel_hits_the_sphere_and_attenuates_the_sky() {
    let world = one_sphere_world();
    let camera = front_camera();
    // A 3x3 image: the center pixel's ray goes straight down -z into the
    // sphere; the corner rays miss it and sample the sky.
    let img = render(&world, &camera, 3, 3, 1, 2, 5);
    let center = img.pixels[4];
    let corner = img.pixels[0];
    let miss = Color::new(fx(0.0), fx(0.0), fx(0.0), fx(1.0));
    // The center ray hit: its color is the albedo times a sky sample, not
    // the miss color and not the raw sky.
    assert_ne!(center, miss);
    assert_eq!(center.a, fx(1.0));
    // The albedo halves every channel, so the center stays darker than the
    // corner's direct sky sample.
    assert!(center.b.lt(corner.b));
    // The sky gradient orders the channels red <= green <= blue.
    assert!(center.r.le(center.g) && center.g.le(center.b));
    assert!(corner.r.le(corner.g) && corner.g.le(corner.b));
    // The corner missed: a direct, bright sky sample.
    assert_eq!(corner.a, fx(1.0));
    assert!(corner.b.gt(fx(0.9)));
}

#[test]
fn more_samples_reduce_the_pixel_variance() {
    // A Lambertian sphere lit only by the sky gradient: the green channel
    // of a hitting pixel varies run to run with one sample, and the spread
    // shrinks when 256 samples are averaged.
    let world = one_sphere_world();
    let camera = front_camera();
    let spread = |samples: u32| -> f64 {
        let mut values: Vec<f64> = Vec::new();
        for seed in 0..12u64 {
            let c = trace_pixel(&world, &camera, 1, 1, 3, 3, samples, 8, seed);
            values.push(c.g.raw() as f64 / 65536.0);
        }
        let mean: f64 = values.iter().sum::<f64>() / values.len() as f64;
        let var: f64 =
            values.iter().map(|v| (v - mean) * (v - mean)).sum::<f64>() / values.len() as f64;
        var.sqrt()
    };
    let sd1 = spread(1);
    let sd256 = spread(256);
    assert!(
        sd256 < sd1,
        "sample deviation should shrink: one sample {} vs 256 samples {}",
        sd1,
        sd256
    );
}

#[test]
fn orthographic_empty_scene_is_fully_transparent() {
    let world = World::new();
    let renderer = SpriteRenderer {
        shading_mode: ShadingModes::Normal,
        image_width: 4,
        image_height: 4,
        camera_settings: CameraSettings {
            v_fov: Fx::from_int(90),
            eye: v3(0.0, 0.0, 1.0),
            target: v3(0.0, 0.0, 0.0),
            up_dir: v3(0.0, 1.0, 0.0),
            perspective: Perspective::Orthographic { scale: fx(1.0) },
            focal_len: fx(1.0),
        },
        mesh_file: String::new(),
        blacken_normal_map: false,
    };
    let img = renderer.render(&world);
    assert_eq!(img.pixels.len(), 16);
    for p in &img.pixels {
        assert_eq!(*p, Color::new(fx(0.0), fx(0.0), fx(0.0), fx(0.0)));
        assert_eq!(p.to_bytes()[3], 0);
    }
}

#[test]
fn sprite_diffuse_pass_halves_the_flat_color() {
    let mut world = World::new();
    world.add_item(Primitive::Sphere(Sphere::new(
        v3(0.0, 0.0, 0.0),
        fx(0.4),
        Material::Lambertian { albedo: Color::new(fx(1.0), fx(0.5), fx(0.0), fx(1.0)) },
    )));
    let renderer = SpriteRenderer {
        shading_mode: ShadingModes::Diffuse,
        image_width: 3,
        image_height: 3,
        camera_settings: CameraSettings {
            v_fov: Fx::from_int(90),
            eye: v3(0.0, 0.0, 1.0),
            target: v3(0.0, 0.0, 0.0),
            up_dir: v3(0.0, 1.0, 0.0),
            perspective: Perspective::Perspective { scale: fx(1.0) },
            focal_len: fx(1.0),
        },
        mesh_file: String::new(),
        blacken_normal_map: false,
    };
    let img = renderer.render(&world);
    let center = img.pixels[4];
    // The flat albedo, halved by the diffuse post-processing.
    assert_eq!(center, Color::new(fx(0.5), fx(0.25), fx(0.0), fx(1.0)));
}

#[test]
fn blacken_normal_map_fills_misses_opaque_black() {
    let world = World::new();
    let renderer = SpriteRenderer {
        shading_mode: ShadingModes::Normal,
        image_width: 2,
        image_height: 2,
        camera_settings: CameraSettings {
            v_fov: Fx::from_int(90),
            eye: v3(0.0, 0.0, 1.0),
            target: v3(0.0, 0.0, 0.0),
            up_dir: v3(0.0, 1.0, 0.0),
            perspective: Perspective::Orthographic { scale: fx(1.0) },
            focal_len: fx(1.0),
        },
        mesh_file: String::new(),
        blacken_normal_map: true,
    };
    let img = renderer.render(&world);
    for p in &img.pixels {
        assert_eq!(*p, Color::new(fx(0.0), fx(0.0), fx(0.0), fx(1.0)));
    }
}
