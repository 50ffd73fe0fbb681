use shapes_demo::motion::{MovingShapeObject, Vec2};
use shapes_demo::registry::{PublishRegistry, ShapeWriter};
use shapes_demo::shapes::{Color, ShapeKind};

fn writer(handle: u64, color: Color, x: i64, vx: i64) -> ShapeWriter {
    ShapeWriter {
        handle,
        shape: MovingShapeObject {
            kind: ShapeKind::Circle,
            color,
            position: Vec2 { x, y: 80 },
            size: 30,
            velocity: Vec2 { x: vx, y: 20 },
        },
    }
}

#[test]
fn publish_pass_emits_one_wire_sample_per_entry() {
    let mut reg = PublishRegistry::new();
    reg.append(writer(7, Color::Red, 100, 30));
    reg.append(writer(9, Color::Blue, 50, -30));
    let pass = reg.publish_pass();
    assert_eq!(pass.len(), 2);
    assert_eq!(pass[0].0, 7);
    assert_eq!(pass[0].1.color, "RED".to_string());
    assert_eq!(pass[0].1.x, 100);
    assert_eq!(pass[0].1.y, 80);
    assert_eq!(pass[0].1.shapesize, 30);
    assert_eq!(pass[1].0, 9);
    assert_eq!(pass[1].1.color, "BLUE".to_string());
}

#[test]
fn interleaved_appends_and_passes_see_whole_entries() {
    // The registry isolation scenario, at the granularity the lock
    // enforces: every pass between appends observes exactly the entries
    // appended so far, each whole.
    let mut reg = PublishRegistry::new();
    for i in 0..50u64 {
        reg.append(writer(i, Color::Red, 100, 30));
        let pass = reg.publish_pass();
        assert_eq!(pass.len(), (i + 1) as usize);
        for (j, (handle, wire)) in pass.iter().enumerate() {
            assert_eq!(*handle, j as u64);
            assert_eq!(wire.color, "RED".to_string());
            assert_eq!(wire.shapesize, 30);
        }
    }
}

#[test]
fn advance_all_steps_every_entry() {
    let mut reg = PublishRegistry::new();
    reg.append(writer(1, Color::Red, 100, 30));
    reg.append(writer(2, Color::Blue, 200, 30));
    reg.advance_all(Vec2 { x: 235, y: 265 }, 1000);
    let shapes = reg.shapes();
    assert_eq!(shapes.len(), 2);
    assert_eq!(shapes[0].position.x, 130);
    // The second entry starts at x=200 inside [15, 220] and advances to 230.
    assert_eq!(shapes[1].position.x, 230);
    let pass = reg.publish_pass();
    assert_eq!(pass[0].0, 1);
    assert_eq!(pass[1].0, 2);
}

#[test]
fn empty_registry_pass_is_a_no_op() {
    let reg = PublishRegistry::new();
    assert_eq!(reg.len(), 0);
    assert!(reg.publish_pass().is_empty());
    assert!(reg.shapes().is_empty());
}
