use shapes_demo::motion::{MovingShapeObject, Vec2};
use shapes_demo::shapes::{Color, DemoError, ShapeKind, ShapeType};

fn circle(x: i64, y: i64, size: i64, vx: i64, vy: i64) -> MovingShapeObject {
    MovingShapeObject {
        kind: ShapeKind::Circle,
        color: Color::Red,
        position: Vec2 { x, y },
        size,
        velocity: Vec2 { x: vx, y: vy },
    }
}

#[test]
fn zero_dt_inside_is_identity() {
    let mut s = circle(100, 80, 30, 30, 20);
    s.move_within_rect(Vec2 { x: 235, y: 265 }, 0);
    assert_eq!(s.position, Vec2 { x: 100, y: 80 });
    assert_eq!(s.velocity, Vec2 { x: 30, y: 20 });
}

#[test]
fn zero_dt_still_clamps_boundary() {
    let mut s = circle(-5, 80, 30, 0, 0);
    s.move_within_rect(Vec2 { x: 235, y: 265 }, 0);
    assert_eq!(s.position, Vec2 { x: 15, y: 80 });
}

#[test]
fn left_boundary_reflects_sign_flip_only() {
    let mut s = circle(10, 80, 30, -7, 13);
    s.move_within_rect(Vec2 { x: 235, y: 265 }, 0);
    assert_eq!(s.velocity, Vec2 { x: 7, y: 13 });
    assert_eq!(s.position, Vec2 { x: 15, y: 80 });
}

#[test]
fn advance_inside_area() {
    // A Circle at (100,80), size 30, velocity (30,20), one second inside
    // a 235 x 265 area: no boundary hit, position moves to (130,100).
    let mut s = circle(100, 80, 30, 30, 20);
    s.move_within_rect(Vec2 { x: 235, y: 265 }, 1000);
    assert_eq!(s.position, Vec2 { x: 130, y: 100 });
    assert_eq!(s.velocity, Vec2 { x: 30, y: 20 });
}

#[test]
fn right_boundary_clamp_reflect_advance() {
    // Radius 15 in a width-235 area puts the effective right edge at 220.
    // From x=215 at +30 the first step stays unreflected and lands at 245;
    // the next step clamps to 220, reflects to -30, and advances to 190.
    let mut s = circle(215, 100, 30, 30, 0);
    let rect = Vec2 { x: 235, y: 265 };
    s.move_within_rect(rect, 1000);
    assert_eq!(s.position.x, 245);
    assert_eq!(s.velocity.x, 30);
    s.move_within_rect(rect, 1000);
    assert_eq!(s.position.x, 190);
    assert_eq!(s.velocity.x, -30);
}

#[test]
fn fractional_dt_truncates() {
    let mut s = circle(100, 80, 30, 30, 20);
    // 0.5 s at (30, 20) advances by (15, 10).
    s.move_within_rect(Vec2 { x: 235, y: 265 }, 500);
    assert_eq!(s.position, Vec2 { x: 115, y: 90 });
    // 33 ms at (30, 20) advances by (0, 0): 30*33/1000 truncates to 0.
    let mut t = circle(100, 80, 30, 30, 20);
    t.move_within_rect(Vec2 { x: 235, y: 265 }, 33);
    assert_eq!(t.position, Vec2 { x: 100, y: 80 });
}

#[test]
fn oversized_shape_does_not_panic() {
    // Size larger than the area: the effective rectangle degenerates to
    // a point at (half, half) and the step still completes.
    let mut s = circle(100, 80, 500, 10, 10);
    s.move_within_rect(Vec2 { x: 235, y: 265 }, 0);
    assert_eq!(s.position.x, 250);
}

#[test]
fn from_shape_type_accepts_palette_color() {
    let wire = ShapeType { color: "GREEN".to_string(), x: 10, y: 20, shapesize: 25 };
    let s = MovingShapeObject::from_shape_type(ShapeKind::Square, &wire, Vec2 { x: 0, y: 0 })
        .unwrap();
    assert_eq!(s.color, Color::Green);
    assert_eq!(s.kind, ShapeKind::Square);
    assert_eq!(s.position, Vec2 { x: 10, y: 20 });
    assert_eq!(s.size, 25);
    assert_eq!(s.velocity, Vec2 { x: 0, y: 0 });
}

#[test]
fn from_shape_type_rejects_unknown_color() {
    let wire = ShapeType { color: "MAUVE".to_string(), x: 10, y: 20, shapesize: 25 };
    let r = MovingShapeObject::from_shape_type(ShapeKind::Square, &wire, Vec2 { x: 0, y: 0 });
    assert_eq!(r, Err(DemoError::UnknownColor));
}

#[test]
fn to_shape_type_is_exact_wire_form() {
    let s = circle(130, 100, 30, 30, 20);
    let wire = s.to_shape_type();
    assert_eq!(wire.color, "RED".to_string());
    assert_eq!(wire.x, 130);
    assert_eq!(wire.y, 100);
    assert_eq!(wire.shapesize, 30);
}

#[test]
fn to_shape_type_saturates_into_i32() {
    let s = circle(3_000_000_000, -3_000_000_000, 30, 0, 0);
    let wire = s.to_shape_type();
    assert_eq!(wire.x, i32::MAX);
    assert_eq!(wire.y, i32::MIN);
}
