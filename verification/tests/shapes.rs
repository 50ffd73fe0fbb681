use shapes_demo::shapes::{Color, DemoError, Reliability, ShapeKind};

const COLORS: [(Color, &str); 8] = [
    (Color::Purple, "PURPLE"),
    (Color::Blue, "BLUE"),
    (Color::Red, "RED"),
    (Color::Green, "GREEN"),
    (Color::Yellow, "YELLOW"),
    (Color::Cyan, "CYAN"),
    (Color::Magenta, "MAGENTA"),
    (Color::Orange, "ORANGE"),
];

#[test]
fn every_color_round_trips_through_its_name() {
    for (color, name) in COLORS {
        assert_eq!(color.as_str(), name);
        assert_eq!(Color::from_name(name), Ok(color));
    }
}

#[test]
fn unknown_color_is_rejected() {
    assert_eq!(Color::from_name("red"), Err(DemoError::UnknownColor));
    assert_eq!(Color::from_name(""), Err(DemoError::UnknownColor));
    assert_eq!(Color::from_name("REDD"), Err(DemoError::UnknownColor));
}

#[test]
fn every_kind_round_trips_through_its_topic_name() {
    for (kind, name) in [
        (ShapeKind::Square, "Square"),
        (ShapeKind::Circle, "Circle"),
        (ShapeKind::Triangle, "Triangle"),
    ] {
        assert_eq!(kind.as_str(), name);
        assert_eq!(ShapeKind::from_topic_name(name), Ok(kind));
    }
}

#[test]
fn unknown_topic_is_rejected() {
    assert_eq!(ShapeKind::from_topic_name("Hexagon"), Err(DemoError::UnknownTopic));
    assert_eq!(ShapeKind::from_topic_name("square"), Err(DemoError::UnknownTopic));
}

#[test]
fn reliability_follows_the_flag() {
    assert_eq!(Reliability::from_flag(true), Reliability::Reliable);
    assert_eq!(Reliability::from_flag(false), Reliability::BestEffort);
}
