use raytracer::fx::Fx;
use raytracer::vec3::Vec3;

/// The fixed-point scalar nearest to `x`.
fn fx(x: f64) -> Fx {
    Fx::from_raw((x * 65536.0).round() as i64)
}

#[test]
fn vec3_default_returns_000() {
    let actual = Vec3::default();

    assert_eq!(fx(0.), actual.x);
    assert_eq!(fx(0.), actual.y);
    assert_eq!(fx(0.), actual.z);

    let expected = Vec3 { x: fx(0.), y: fx(0.), z: fx(0.) };

    assert_eq!(expected, actual);
}

#[test]
fn vec3_new_returns_expected() {
    let x = fx(2.3);
    let y = fx(3382.90001);
    let z = fx(-0.00001);
    let actual = Vec3::new(x, y, z);
    let expected = Vec3 { x, y, z };

    assert_eq!(expected, actual);
}

#[test]
fn vec3_neg_returns_expected() {
    let x = fx(2.3);
    let y = fx(3382.90001);
    let z = fx(-0.00001);
    let actual = Vec3::new(x, y, z).neg();

    let x = x.neg();
    let y = y.neg();
    let z = z.neg();
    let expected = Vec3 { x, y, z };

    assert_eq!(expected, actual);
}

#[test]
fn vec3_add_returns_expected() {
    let x0 = fx(2.3);
    let y0 = fx(3382.90001);
    let z0 = fx(-0.00001);
    let x1 = fx(34.2);
    let y1 = fx(-2090.012);
    let z1 = fx(3.02);

    let actual = Vec3::new(x0, y0, z0).add(Vec3::new(x1, y1, z1));

    let expected = Vec3::new(x0.add(x1), y0.add(y1), z0.add(z1));

    assert_eq!(expected, actual);
}

#[test]
fn vec3_addassign_returns_expected() {
    let x0 = fx(2.3);
    let y0 = fx(3382.90001);
    let z0 = fx(-0.00001);
    let x1 = fx(34.2);
    let y1 = fx(-2090.012);
    let z1 = fx(3.02);

    let mut actual = Vec3::new(x0, y0, z0);
    actual = actual.add(Vec3::new(x1, y1, z1));

    let expected = Vec3::new(x0.add(x1), y0.add(y1), z0.add(z1));

    assert_eq!(expected, actual);
}

#[test]
fn vec3_sub_returns_expected() {
    let x0 = fx(2.3);
    let y0 = fx(3382.90001);
    let z0 = fx(-0.00001);
    let x1 = fx(34.2);
    let y1 = fx(-2090.012);
    let z1 = fx(3.02);

    let actual = Vec3::new(x0, y0, z0).sub(Vec3::new(x1, y1, z1));

    let expected = Vec3::new(x0.sub(x1), y0.sub(y1), z0.sub(z1));

    assert_eq!(expected, actual);
}

#[test]
fn vec3_subassign_returns_expected() {
    let x0 = fx(2.3);
    let y0 = fx(3382.90001);
    let z0 = fx(-0.00001);
    let x1 = fx(34.2);
    let y1 = fx(-2090.012);
    let z1 = fx(3.02);

    let mut actual = Vec3::new(x0, y0, z0);
    actual = actual.sub(Vec3::new(x1, y1, z1));

    let expected = Vec3::new(x0.sub(x1), y0.sub(y1), z0.sub(z1));

    assert_eq!(expected, actual);
}

#[test]
fn vec3_mul_returns_expected() {
    let x0 = fx(2.3);
    let y0 = fx(3382.90001);
    let z0 = fx(-0.00001);
    let x1 = fx(34.2);
    let y1 = fx(-2090.012);
    let z1 = fx(3.02);

    let actual = Vec3::new(x0, y0, z0).mul(Vec3::new(x1, y1, z1));

    let expected = Vec3::new(x0.mul(x1), y0.mul(y1), z0.mul(z1));

    assert_eq!(expected, actual);
}

#[test]
fn vec3_dot_returns_expected() {
    let x0 = fx(2.3);
    let y0 = fx(3382.90001);
    let z0 = fx(-0.00001);
    let x1 = fx(34.2);
    let y1 = fx(-2090.012);
    let z1 = fx(3.02);

    let actual = Vec3::new(x0, y0, z0).dot(Vec3::new(x1, y1, z1));
    let expected = x0.mul(x1).add(y0.mul(y1)).add(z0.mul(z1));

    assert_eq!(expected, actual);
}

#[test]
fn vec3_cross_returns_expected() {
    let x0 = fx(2.3);
    let y0 = fx(3382.90001);
    let z0 = fx(-0.00001);
    let x1 = fx(34.2);
    let y1 = fx(-2090.012);
    let z1 = fx(3.02);

    let actual = Vec3::new(x0, y0, z0).cross(Vec3::new(x1, y1, z1));
    let expected = Vec3 {
        x: y0.mul(z1).sub(z0.mul(y1)),
        y: z0.mul(x1).sub(x0.mul(z1)),
        z: x0.mul(y1).sub(y0.mul(x1)),
    };

    assert_eq!(expected, actual);
}

#[test]
fn vec3_unit_vector_returns_expected() {
    let x0 = fx(2.3);
    let y0 = fx(3382.90001);
    let z0 = fx(-0.00001);

    let vec = Vec3::new(x0, y0, z0);
    let actual = vec.unit_vector();
    let expected = vec.div_s(vec.len());

    assert_eq!(expected, actual);
}

#[test]
fn vec3_mulr_returns_expected() {
    let x0 = fx(2.3);
    let y0 = fx(3382.90001);
    let z0 = fx(-0.00001);
    let mul = fx(2382.10191);

    let actual = Vec3::new(x0, y0, z0).scale(mul);
    let expected = Vec3::new(x0.mul(mul), y0.mul(mul), z0.mul(mul));
    assert_eq!(expected, actual);

    let actual = Vec3::new(x0, y0, z0).scale(mul);
    assert_eq!(expected, actual);
}

#[test]
fn vec3_mulassign_returns_expected() {
    let x0 = fx(2.3);
    let y0 = fx(3382.90001);
    let z0 = fx(-0.00001);
    let mul = fx(2.381);

    let mut actual = Vec3::new(x0, y0, z0);
    actual = actual.scale(mul);

    let expected = Vec3::new(x0.mul(mul), y0.mul(mul), z0.mul(mul));

    assert_eq!(expected, actual);
}

#[test]
fn vec3_divr_returns_expected() {
    let x0 = fx(2.3);
    let y0 = fx(3382.90001);
    let z0 = fx(-0.00001);
    let div = fx(2382.10191);

    let actual = Vec3::new(x0, y0, z0).div_s(div);
    let expected = Vec3::new(x0.div(div), y0.div(div), z0.div(div));
    assert_eq!(expected, actual);
}

#[test]
fn vec3_divassign_returns_expected() {
    let x0 = fx(2.3);
    let y0 = fx(3382.90001);
    let z0 = fx(-0.00001);
    let div = fx(2.381);

    let mut actual = Vec3::new(x0, y0, z0);
    actual = actual.div_s(div);

    let expected = Vec3::new(x0.div(div), y0.div(div), z0.div(div));

    assert_eq!(expected, actual);
}

#[test]
fn vec3_len_squared_returns_expected() {
    let x0 = fx(2.3);
    let y0 = fx(3382.90001);
    let z0 = fx(-0.00001);

    let actual = Vec3::new(x0, y0, z0).len_squared();
    let expected = x0.mul(x0).add(y0.mul(y0)).add(z0.mul(z0));

    assert_eq!(expected, actual);
}

#[test]
fn vec3_len_returns_expected() {
    let x0 = fx(2.3);
    let y0 = fx(3382.90001);
    let z0 = fx(-0.00001);

    let actual = Vec3::new(x0, y0, z0).len();
    let expected = x0.mul(x0).add(y0.mul(y0)).add(z0.mul(z0)).nsqrt();

    assert_eq!(expected, actual);
}
