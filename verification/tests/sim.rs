use shapes_demo::motion::Vec2;
use shapes_demo::shapes::{Color, Reliability, ShapeKind, ShapeType};
use shapes_demo::sim::{
    AREA_HEIGHT, AREA_WIDTH, FRAME_INTERVAL_MS, PUBLISH_PERIOD_MS, Simulation,
};
use shapes_demo::widget::PublishWidget;

fn wire(color: &str, x: i32, y: i32) -> ShapeType {
    ShapeType { color: color.to_string(), x, y, shapesize: 20 }
}

#[test]
fn publish_then_one_frame_advances_the_circle() {
    // Publish a Circle (reliable delivery is the transport's concern);
    // one frame a second later advances it from (100,80) to (130,100).
    let mut sim = Simulation::new();
    assert_eq!(Reliability::from_flag(true), Reliability::Reliable);
    sim.publish(0, ShapeKind::Circle, Color::Red);
    let render = sim.frame(1000, vec![]);
    assert_eq!(render.len(), 1);
    assert_eq!(render[0].position, Vec2 { x: 130, y: 100 });
    assert_eq!(render[0].velocity, Vec2 { x: 30, y: 20 });
    assert_eq!(render[0].kind, ShapeKind::Circle);
}

#[test]
fn subscribe_then_reconcile_two_samples_for_one_key() {
    // Subscribed to "Square": two inbound samples for key "RED", at
    // (10,10) then (20,20), reconcile to exactly one shape at (20,20).
    let mut sim = Simulation::new();
    let kind = ShapeKind::from_topic_name("Square").unwrap();
    sim.subscribe(kind, Reliability::from_flag(false));
    let render = sim.frame(40, vec![vec![wire("RED", 10, 10), wire("RED", 20, 20)]]);
    assert_eq!(render.len(), 1);
    assert_eq!(render[0].position, Vec2 { x: 20, y: 20 });
    assert_eq!(render[0].kind, ShapeKind::Square);
    assert_eq!(render[0].color, Color::Red);
    assert_eq!(render[0].velocity, Vec2 { x: 0, y: 0 });
}

#[test]
fn frame_lists_remote_shapes_before_locals() {
    let mut sim = Simulation::new();
    sim.subscribe(ShapeKind::Square, Reliability::BestEffort);
    sim.publish(3, ShapeKind::Triangle, Color::Green);
    let render = sim.frame(0, vec![vec![wire("BLUE", 5, 6)]]);
    assert_eq!(render.len(), 2);
    assert_eq!(render[0].kind, ShapeKind::Square);
    assert_eq!(render[0].color, Color::Blue);
    assert_eq!(render[1].kind, ShapeKind::Triangle);
    assert_eq!(render[1].color, Color::Green);
}

#[test]
fn frame_time_is_tracked_between_frames() {
    let mut sim = Simulation::new();
    sim.publish(0, ShapeKind::Circle, Color::Red);
    let r1 = sim.frame(500, vec![]);
    assert_eq!(r1[0].position, Vec2 { x: 115, y: 90 });
    // The next frame advances only by the 500 ms that elapsed since.
    let r2 = sim.frame(1000, vec![]);
    assert_eq!(r2[0].position, Vec2 { x: 130, y: 100 });
    // A clock that runs backwards advances nothing.
    let r3 = sim.frame(900, vec![]);
    assert_eq!(r3[0].position, Vec2 { x: 130, y: 100 });
}

#[test]
fn scheduler_pass_reads_the_registry_through_the_simulation() {
    let mut sim = Simulation::new();
    sim.publish(11, ShapeKind::Circle, Color::Cyan);
    let pass = sim.registry.publish_pass();
    assert_eq!(pass.len(), 1);
    assert_eq!(pass[0].0, 11);
    assert_eq!(pass[0].1.color, "CYAN".to_string());
    assert_eq!(pass[0].1.x, 100);
    assert_eq!(pass[0].1.y, 80);
    assert_eq!(pass[0].1.shapesize, 30);
}

#[test]
fn cadence_constants() {
    assert_eq!(PUBLISH_PERIOD_MS, 25);
    assert_eq!(FRAME_INTERVAL_MS, 40);
    assert_eq!(AREA_WIDTH, 235);
    assert_eq!(AREA_HEIGHT, 265);
}

#[test]
fn publish_widget_hands_out_the_choice_once() {
    let mut w = PublishWidget::new();
    assert!(!w.is_reliable);
    assert!(w.closed);
    assert_eq!(w.selected_color(), None);
    w.selected_color = Some("RED".to_string());
    assert_eq!(w.selected_color(), Some("RED".to_string()));
    assert_eq!(w.selected_color(), None);
}
