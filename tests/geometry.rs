use random_city::geometry::{LocalPoint, Point3, Row, Transform, UNIT};

#[test]
fn translation_moves_point() {
    let p = LocalPoint { x: -500, y: 500, z: 0 };
    assert_eq!(Transform::translation(10, -20, 30).apply(&p), Point3 { x: -490, y: 480, z: 30 });
}

#[test]
fn scaling_scales_point() {
    let p = LocalPoint { x: -500, y: 500, z: 7 };
    assert_eq!(Transform::scaling(5, 1, -2).apply(&p), Point3 { x: -2500, y: 500, z: -14 });
}

#[test]
fn compose_scales_before_translating() {
    let m = Transform::translation(UNIT, 0, 0).compose(&Transform::scaling(5, 5, 5));
    assert_eq!(m.x, Row { a: 5, b: 0, c: 0, t: 1000 });
    let p = LocalPoint { x: 500, y: -500, z: 500 };
    assert_eq!(m.apply(&p), Point3 { x: 3500, y: -2500, z: 2500 });
    let other = Transform::scaling(5, 5, 5).compose(&Transform::translation(UNIT, 0, 0));
    assert_eq!(other.apply(&p), Point3 { x: 7500, y: -2500, z: 2500 });
}

#[test]
fn apply_handles_extreme_values() {
    let m = Transform::scaling(i32::MIN, i32::MAX, i32::MIN);
    let p = LocalPoint { x: i16::MIN, y: i16::MAX, z: i16::MAX };
    let r = m.apply(&p);
    assert_eq!(r.x, (i32::MIN as i64) * (i16::MIN as i64));
    assert_eq!(r.y, (i32::MAX as i64) * (i16::MAX as i64));
    assert_eq!(r.z, (i32::MIN as i64) * (i16::MAX as i64));
}
