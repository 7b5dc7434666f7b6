#![allow(non_snake_case)]

use raytracer::fx::Fx;
use raytracer::quaternion::Quaternion;
use raytracer::vec3::Vec3;

type Q = Quaternion;

/// The fixed-point scalar nearest to `x`.
fn fx(x: f64) -> Fx {
    Fx::from_raw((x * 65536.0).round() as i64)
}

#[test]
fn Quaternion_normalize() {
    let q = Q::from_x_rotation(fx(1.0 / 3.0));

    println!("Q: {:?}", q);

    let expected = {
        println!("MAG: {:?}", q.magnitude());
        let mag = q.magnitude().nsqrt();
        let w = q.w.div(mag);
        let x = q.x.div(mag);
        let y = q.y.div(mag);
        let z = q.z.div(mag);

        Quaternion::new(w, x, y, z)
    };

    assert_eq!(expected, q.normalize());
}

#[test]
fn Quaternion_magnitude() {
    let q = Q::from_x_rotation(fx(1.0 / 3.0));

    let expected = q.w.nsqrd().add(q.x.nsqrd()).add(q.y.nsqrd()).add(q.z.nsqrd());
    let actual = q.magnitude();

    assert_eq!(expected, actual);

    let q = Q::from_z_rotation(fx(1.0 / 3.0));

    let expected = q.w.nsqrd().add(q.x.nsqrd()).add(q.y.nsqrd()).add(q.z.nsqrd());
    let actual = q.magnitude();

    assert_eq!(expected, actual);
}

#[test]
fn Quaternion_mul_assign() {
    let mut q1 = Q::from_x_rotation(fx(1.0 / 3.0));
    let other = Q::from_y_rotation(fx(4.0));

    let expected = q1.multiply(other);
    q1.mul_assign(other);

    assert_eq!(expected, q1);

    let mut q1 = Q::from_z_rotation(fx(1.0 / 3.0));
    let other = Q::from_y_rotation(fx(4.0));

    let expected = q1.multiply(other);
    q1.mul_assign(other);

    assert_eq!(expected, q1);
}

#[test]
fn Quaternion_mul() {
    let q1 = Q::from_x_rotation(fx(1.0 / 3.0));
    let other = Q::from_y_rotation(fx(4.0));

    let expected = q1.multiply(other);
    let actual = q1.mul(other);

    assert_eq!(expected, actual);

    let q1 = Q::from_z_rotation(fx(1.0 / 3.0));
    let other = Q::from_x_rotation(fx(4.0));

    let expected = q1.multiply(other);
    let actual = q1.mul(other);

    assert_eq!(expected, actual);
}

#[test]
fn Quaternion_multiply() {
    let q1 = Q::from_x_rotation(fx(1.0 / 3.0));
    let other = Q::from_y_rotation(fx(4.0));

    let w = q1.w.mul(other.w).sub(q1.x.mul(other.x)).sub(q1.y.mul(other.y)).sub(
        q1.z.mul(other.z),
    );
    let x = q1.w.mul(other.x).add(q1.x.mul(other.w)).add(q1.y.mul(other.z)).sub(
        q1.z.mul(other.y),
    );
    let y = q1.w.mul(other.y).sub(q1.x.mul(other.z)).add(q1.y.mul(other.w)).add(
        q1.z.mul(other.x),
    );
    let z = q1.w.mul(other.z).add(q1.x.mul(other.y)).sub(q1.y.mul(other.x)).add(
        q1.z.mul(other.w),
    );

    let expected = Q::new(w, x, y, z);
    let actual = q1.multiply(other);
    assert_eq!(expected, actual);

    let q1 = Q::from_z_rotation(fx(1.0 / 3.0));
    let other = Quaternion::from_x_rotation(fx(44.0));

    let w = q1.w.mul(other.w).sub(q1.x.mul(other.x)).sub(q1.y.mul(other.y)).sub(
        q1.z.mul(other.z),
    );
    let x = q1.w.mul(other.x).add(q1.x.mul(other.w)).add(q1.y.mul(other.z)).sub(
        q1.z.mul(other.y),
    );
    let y = q1.w.mul(other.y).sub(q1.x.mul(other.z)).add(q1.y.mul(other.w)).add(
        q1.z.mul(other.x),
    );
    let z = q1.w.mul(other.z).add(q1.x.mul(other.y)).sub(q1.y.mul(other.x)).add(
        q1.z.mul(other.w),
    );

    let expected = Q::new(w, x, y, z);
    let actual = q1.multiply(other);
    assert_eq!(expected, actual);
}

#[test]
fn Quaternion_from_z_rotation() {
    let angle = fx(1.0 / 7.0);

    let expected = Q::from_axis_angle(Vec3::new(fx(0.), fx(0.), fx(1.)), angle);
    let actual = Quaternion::from_z_rotation(angle);
    assert_eq!(expected, actual);

    let angle = fx(1.0 / 37.0);

    let expected = Q::from_axis_angle(Vec3::new(fx(0.), fx(0.), fx(1.)), angle);
    let actual = Q::from_z_rotation(angle);
    assert_eq!(expected, actual);

    let angle = fx(-3.0);

    let expected = Q::from_axis_angle(Vec3::new(fx(0.), fx(0.), fx(1.)), angle);
    let actual = Q::from_z_rotation(angle);
    assert_eq!(expected, actual);

    let angle = fx(3.0);

    let expected = Q::from_axis_angle(Vec3::new(fx(0.), fx(0.), fx(1.)), angle);
    let actual = Q::from_z_rotation(angle);
    assert_eq!(expected, actual);
}

#[test]
fn Quaternion_from_y_rotation() {
    let angle = fx(1.0 / 7.0);

    let expected = Q::from_axis_angle(Vec3::new(fx(0.), fx(1.), fx(0.)), angle);
    let actual = Q::from_y_rotation(angle);
    assert_eq!(expected, actual);

    let angle = fx(1.0 / 37.0);

    let expected = Q::from_axis_angle(Vec3::new(fx(0.), fx(1.), fx(0.)), angle);
    let actual = Q::from_y_rotation(angle);
    assert_eq!(expected, actual);

    let angle = fx(-3.0);

    let expected = Q::from_axis_angle(Vec3::new(fx(0.), fx(1.), fx(0.)), angle);
    let actual = Q::from_y_rotation(angle);
    assert_eq!(expected, actual);

    let angle = fx(3.0);

    let expected = Q::from_axis_angle(Vec3::new(fx(0.), fx(1.), fx(0.)), angle);
    let actual = Q::from_y_rotation(angle);
    assert_eq!(expected, actual);
}

#[test]
fn Quaternion_from_x_rotation() {
    let angle = fx(1.0 / 7.0);

    let expected = Q::from_axis_angle(Vec3::new(fx(1.), fx(0.), fx(0.)), angle);
    let actual = Q::from_x_rotation(angle);
    assert_eq!(expected, actual);

    let angle = fx(1.0 / 37.0);

    let expected = Q::from_axis_angle(Vec3::new(fx(1.), fx(0.), fx(0.)), angle);
    let actual = Q::from_x_rotation(angle);
    assert_eq!(expected, actual);

    let angle = fx(-3.0);

    let expected = Q::from_axis_angle(Vec3::new(fx(1.), fx(0.), fx(0.)), angle);
    let actual = Q::from_x_rotation(angle);
    assert_eq!(expected, actual);

    let angle = fx(3.0);

    let expected = Q::from_axis_angle(Vec3::new(fx(1.), fx(0.), fx(0.)), angle);
    let actual = Q::from_x_rotation(angle);
    assert_eq!(expected, actual);
}

#[test]
fn Quaternion_from_axis_angle() {
    let axis: Vec3 = Vec3::new(fx(0.), fx(2.), fx(3.));
    let angle = fx(1.0 / 7.0);

    let w = angle.div(fx(2.0)).ncos();
    let c = angle.div(fx(2.0)).nsin();

    let expected = Q::new(w, c.mul(axis.x), c.mul(axis.y), c.mul(axis.z));
    let actual = Q::from_axis_angle(axis, angle);

    assert_eq!(expected, actual);

    let axis: Vec3 = Vec3::new(fx(4.), fx(99.), fx(32.));
    let angle = fx(1.0 / 133.0);

    let w = angle.div(fx(2.0)).ncos();
    let c = angle.div(fx(2.0)).nsin();

    let expected = Q::new(w, c.mul(axis.x), c.mul(axis.y), c.mul(axis.z));
    let actual = Q::from_axis_angle(axis, angle);

    assert_eq!(expected, actual);
}

#[test]
fn Quaternion_new_sets_as_expected() {
    let w = fx(3.0);
    let v0 = fx(4.0);
    let v1 = fx(5.0);
    let v2 = fx(6.0);

    let q = Q::new(w, v0, v1, v2);

    assert_eq!(w, q.w);
    assert_eq!(v0, q.x);
    assert_eq!(v1, q.y);
    assert_eq!(v2, q.z);
}

#[test]
fn Quaternion_identity_sets_as_expected() {
    let w = fx(1.0);
    let v0 = fx(0.0);
    let v1 = fx(0.0);
    let v2 = fx(0.0);

    let q = Q::identity();

    assert_eq!(w, q.w);
    assert_eq!(v0, q.x);
    assert_eq!(v1, q.y);
    assert_eq!(v2, q.z);

    let q1 = Q::new(w, v0, v1, v2);

    assert_eq!(q1, q);
}
