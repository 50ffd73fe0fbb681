//! Shape data: the closed color palette, the shape kinds, the wire-level
//! sample type, and the exact string conversions in both directions.

use vstd::prelude::*;
use crate::str_eq;

verus! {

/// The closed palette of identity colors. Within one topic a color names
/// one logical shape instance.
#[derive(Clone, Copy, Debug, PartialEq, Eq, Structural)]
pub enum Color {
    Purple,
    Blue,
    Red,
    Green,
    Yellow,
    Cyan,
    Magenta,
    Orange,
}

/// The closed set of shape kinds; each kind is also a topic name.
#[derive(Clone, Copy, Debug, PartialEq, Eq, Structural)]
pub enum ShapeKind {
    Circle,
    Triangle,
    Square,
}

/// Delivery guarantee requested of the transport for one channel.
#[derive(Clone, Copy, Debug, PartialEq, Eq, Structural)]
pub enum Reliability {
    Reliable,
    BestEffort,
}

/// Rejection of a value outside the closed enumerations, raised at the
/// boundary where the value is first observed.
#[derive(Clone, Copy, Debug, PartialEq, Eq, Structural)]
pub enum DemoError {
    UnknownColor,
    UnknownTopic,
}

/// One shape snapshot in the form the transport carries: the color string
/// is the instance key, coordinates and size are plain integers.
#[derive(Clone, Debug)]
pub struct ShapeType {
    pub color: String,
    pub x: i32,
    pub y: i32,
    pub shapesize: i32,
}

pub open spec fn color_name_spec(c: Color) -> Seq<char> {
    match c {
        Color::Purple => "PURPLE"@,
        Color::Blue => "BLUE"@,
        Color::Red => "RED"@,
        Color::Green => "GREEN"@,
        Color::Yellow => "YELLOW"@,
        Color::Cyan => "CYAN"@,
        Color::Magenta => "MAGENTA"@,
        Color::Orange => "ORANGE"@,
    }
}

pub open spec fn parse_color_spec(s: Seq<char>) -> Option<Color> {
    if s == "PURPLE"@ {
        Some(Color::Purple)
    } else if s == "BLUE"@ {
        Some(Color::Blue)
    } else if s == "RED"@ {
        Some(Color::Red)
    } else if s == "GREEN"@ {
        Some(Color::Green)
    } else if s == "YELLOW"@ {
        Some(Color::Yellow)
    } else if s == "CYAN"@ {
        Some(Color::Cyan)
    } else if s == "MAGENTA"@ {
        Some(Color::Magenta)
    } else if s == "ORANGE"@ {
        Some(Color::Orange)
    } else {
        None
    }
}

pub open spec fn kind_name_spec(k: ShapeKind) -> Seq<char> {
    match k {
        ShapeKind::Square => "Square"@,
        ShapeKind::Circle => "Circle"@,
        ShapeKind::Triangle => "Triangle"@,
    }
}

pub open spec fn parse_kind_spec(s: Seq<char>) -> Option<ShapeKind> {
    if s == "Square"@ {
        Some(ShapeKind::Square)
    } else if s == "Circle"@ {
        Some(ShapeKind::Circle)
    } else if s == "Triangle"@ {
        Some(ShapeKind::Triangle)
    } else {
        None
    }
}

impl Color {
    /// The palette name of this color, the exact key used on the wire.
    pub fn as_str(&self) -> (r: &'static str)
        ensures
            r@ == color_name_spec(*self),
    {
        match self {
            Color::Purple => "PURPLE",
            Color::Blue => "BLUE",
            Color::Red => "RED",
            Color::Green => "GREEN",
            Color::Yellow => "YELLOW",
            Color::Cyan => "CYAN",
            Color::Magenta => "MAGENTA",
            Color::Orange => "ORANGE",
        }
    }

    /// Parses a palette name; any string outside the palette is rejected
    /// with a typed error.
    pub fn from_name(s: &str) -> (r: Result<Color, DemoError>)
        ensures
            r == match parse_color_spec(s@) {
                Some(c) => Ok::<Color, DemoError>(c),
                None => Err::<Color, DemoError>(DemoError::UnknownColor),
            },
    {
        if str_eq(s, "PURPLE") {
            Ok(Color::Purple)
        } else if str_eq(s, "BLUE") {
            Ok(Color::Blue)
        } else if str_eq(s, "RED") {
            Ok(Color::Red)
        } else if str_eq(s, "GREEN") {
            Ok(Color::Green)
        } else if str_eq(s, "YELLOW") {
            Ok(Color::Yellow)
        } else if str_eq(s, "CYAN") {
            Ok(Color::Cyan)
        } else if str_eq(s, "MAGENTA") {
            Ok(Color::Magenta)
        } else if str_eq(s, "ORANGE") {
            Ok(Color::Orange)
        } else {
            Err(DemoError::UnknownColor)
        }
    }
}

impl ShapeKind {
    /// The topic name for this kind.
    pub fn as_str(&self) -> (r: &'static str)
        ensures
            r@ == kind_name_spec(*self),
    {
        match self {
            ShapeKind::Square => "Square",
            ShapeKind::Circle => "Circle",
            ShapeKind::Triangle => "Triangle",
        }
    }

    /// Parses a topic name; an unsupported topic is rejected with a typed
    /// error.
    pub fn from_topic_name(s: &str) -> (r: Result<ShapeKind, DemoError>)
        ensures
            r == match parse_kind_spec(s@) {
                Some(k) => Ok::<ShapeKind, DemoError>(k),
                None => Err::<ShapeKind, DemoError>(DemoError::UnknownTopic),
            },
    {
        if str_eq(s, "Square") {
            Ok(ShapeKind::Square)
        } else if str_eq(s, "Circle") {
            Ok(ShapeKind::Circle)
        } else if str_eq(s, "Triangle") {
            Ok(ShapeKind::Triangle)
        } else {
            Err(DemoError::UnknownTopic)
        }
    }
}

impl Reliability {
    /// The reliability mode chosen by the user's checkbox flag.
    pub fn from_flag(is_reliable: bool) -> (r: Reliability)
        ensures
            r == (if is_reliable { Reliability::Reliable } else { Reliability::BestEffort }),
    {
        if is_reliable {
            Reliability::Reliable
        } else {
            Reliability::BestEffort
        }
    }
}

/// The two conversions are mutually inverse: parsing a palette name gives
/// back exactly the color it names.
pub proof fn lemma_color_name_round_trip(c: Color)
    ensures
        parse_color_spec(color_name_spec(c)) == Some(c),
{
    reveal_strlit("PURPLE");
    reveal_strlit("BLUE");
    reveal_strlit("RED");
    reveal_strlit("GREEN");
    reveal_strlit("YELLOW");
    reveal_strlit("CYAN");
    reveal_strlit("MAGENTA");
    reveal_strlit("ORANGE");
    assert("PURPLE"@.len() == 6);
    assert("BLUE"@.len() == 4);
    assert("RED"@.len() == 3);
    assert("GREEN"@.len() == 5);
    assert("YELLOW"@.len() == 6);
    assert("CYAN"@.len() == 4);
    assert("MAGENTA"@.len() == 7);
    assert("ORANGE"@.len() == 6);
    assert("YELLOW"@ != "PURPLE"@) by {
        assert("YELLOW"@[0] != "PURPLE"@[0]);
    }
    assert("ORANGE"@ != "PURPLE"@) by {
        assert("ORANGE"@[0] != "PURPLE"@[0]);
    }
    assert("ORANGE"@ != "YELLOW"@) by {
        assert("ORANGE"@[0] != "YELLOW"@[0]);
    }
    assert("CYAN"@ != "BLUE"@) by {
        assert("CYAN"@[0] != "BLUE"@[0]);
    }
    match c {
        Color::Purple => {},
        Color::Blue => {},
        Color::Red => {},
        Color::Green => {},
        Color::Yellow => {},
        Color::Cyan => {},
        Color::Magenta => {},
        Color::Orange => {},
    }
}

/// Parsing a topic name gives back exactly the kind it names.
pub proof fn lemma_kind_name_round_trip(k: ShapeKind)
    ensures
        parse_kind_spec(kind_name_spec(k)) == Some(k),
{
    reveal_strlit("Square");
    reveal_strlit("Circle");
    reveal_strlit("Triangle");
    assert("Square"@.len() == 6);
    assert("Circle"@.len() == 6);
    assert("Triangle"@.len() == 8);
    assert("Circle"@ != "Square"@) by {
        assert("Circle"@[0] != "Square"@[0]);
    }
    match k {
        ShapeKind::Square => {},
        ShapeKind::Circle => {},
        ShapeKind::Triangle => {},
    }
}

} // verus!
