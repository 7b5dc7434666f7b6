//! A small ray-tracing engine over fixed-point arithmetic.
//!
//! A camera emits one ray per pixel sample, rays are intersected against the
//! scene's primitives (spheres and triangle meshes), and surface materials
//! scatter rays recursively to accumulate a color.  Every scalar is a
//! fixed-point number, so the whole light-transport computation has an exact
//! mathematical model and the renderer is a proved-deterministic function of
//! the scene, the camera and the sampler seed.

pub mod fx;
pub mod rng;
pub mod trig;
pub mod vec3;
pub mod ray;
pub mod color;
pub mod material;
pub mod hit;
pub mod mesh;
pub mod objects;
pub mod camera;
pub mod sprite;
pub mod render;
pub mod quaternion;
pub mod watch;
pub mod clock;
