use vitruvia::geometry::Transform2D;
use vitruvia::geometry::Vec2D;

#[test]
fn identity_is_default_orientation() {
    let t = Transform2D::identity();
    assert_eq!(t, Transform2D { a: 1, b: 0, c: 0, d: 1, e: 0, f: 0 });
}

#[test]
fn translate_builds_translation_matrix() {
    let t = Transform2D::translate(Vec2D { x: 7, y: -3 });
    assert_eq!(t, Transform2D { a: 1, b: 0, c: 0, d: 1, e: 7, f: -3 });
}

#[test]
fn scale_builds_scale_matrix() {
    let t = Transform2D::scale(2, 5);
    assert_eq!(t, Transform2D { a: 2, b: 0, c: 0, d: 5, e: 0, f: 0 });
}

#[test]
fn compose_multiplies_matrices() {
    let parent = Transform2D { a: 2, b: 0, c: 0, d: 3, e: 10, f: 20 };
    let child = Transform2D { a: 1, b: 0, c: 0, d: 1, e: 5, f: 7 };
    // Child translation lands in parent coordinates: scaled, then shifted.
    let composed = parent.compose(&child);
    assert_eq!(composed, Transform2D { a: 2, b: 0, c: 0, d: 3, e: 20, f: 41 });
}

#[test]
fn compose_is_associative() {
    let a = Transform2D { a: 2, b: 1, c: -1, d: 3, e: 4, f: -2 };
    let b = Transform2D { a: 1, b: -2, c: 3, d: 1, e: -5, f: 6 };
    let c = Transform2D { a: -3, b: 2, c: 1, d: 2, e: 7, f: -8 };
    let left = a.compose(&b).compose(&c);
    let right = a.compose(&b.compose(&c));
    assert_eq!(left, right);
}

#[test]
fn compose_does_not_commute() {
    let a = Transform2D::scale(2, 2);
    let b = Transform2D::translate(Vec2D { x: 1, y: 1 });
    assert_ne!(a.compose(&b), b.compose(&a));
}

#[test]
fn to_matrix_lists_coefficients_in_order() {
    let t = Transform2D { a: 1, b: 2, c: 3, d: 4, e: 5, f: 6 };
    assert_eq!(t.to_matrix(), [1, 2, 3, 4, 5, 6]);
}
