//! The shapes a spacer comes in, with each one's name, icon, tool and key.
use vstd::prelude::*;
use crate::text::{ascii_lower, eq_ignore_ascii_case, same_ignoring_ascii_case, same_text};

verus! {

/// The outline of a spacer.
#[derive(Clone, Copy, Debug, PartialEq, Eq, Structural)]
pub enum Shape {
    Round,
    Hex,
    Square,
    /// Round, with a wider collar at its base.
    Flanged,
}

/// The number of shapes.
pub const SHAPE_COUNT: usize = 4;

/// The shape at a place in the panel's list, which runs Round, Hex, Square,
/// Flanged.
pub open spec fn shape_at(i: int) -> Option<Shape> {
    if i == 0 {
        Some(Shape::Round)
    } else if i == 1 {
        Some(Shape::Hex)
    } else if i == 2 {
        Some(Shape::Square)
    } else if i == 3 {
        Some(Shape::Flanged)
    } else {
        None
    }
}

/// Every shape, in the order the panel lists them.
pub open spec fn all_shapes() -> Seq<Shape> {
    seq![Shape::Round, Shape::Hex, Shape::Square, Shape::Flanged]
}

/// The shape whose name is `name` but for the case of its letters; the first
/// in the panel's order.
pub open spec fn shape_named(name: Seq<char>) -> Option<Shape> {
    if same_ignoring_ascii_case(Shape::Round.spec_name()@, name) {
        Some(Shape::Round)
    } else if same_ignoring_ascii_case(Shape::Hex.spec_name()@, name) {
        Some(Shape::Hex)
    } else if same_ignoring_ascii_case(Shape::Square.spec_name()@, name) {
        Some(Shape::Square)
    } else if same_ignoring_ascii_case(Shape::Flanged.spec_name()@, name) {
        Some(Shape::Flanged)
    } else {
        None
    }
}

/// The shape whose tool is `tool`; the first in the panel's order.
pub open spec fn shape_of_tool(tool: Seq<char>) -> Option<Shape> {
    if Shape::Round.spec_tool()@ == tool {
        Some(Shape::Round)
    } else if Shape::Hex.spec_tool()@ == tool {
        Some(Shape::Hex)
    } else if Shape::Square.spec_tool()@ == tool {
        Some(Shape::Square)
    } else if Shape::Flanged.spec_tool()@ == tool {
        Some(Shape::Flanged)
    } else {
        None
    }
}

impl Shape {
    /// Its place in the panel's list.
    pub open spec fn spec_index(self) -> int {
        match self {
            Shape::Round => 0,
            Shape::Hex => 1,
            Shape::Square => 2,
            Shape::Flanged => 3,
        }
    }

    /// Its name in the panel.
    pub open spec fn spec_name(self) -> &'static str {
        match self {
            Shape::Round => "Round",
            Shape::Hex => "Hex",
            Shape::Square => "Square",
            Shape::Flanged => "Flanged",
        }
    }

    /// Its icon.
    pub open spec fn spec_icon(self) -> &'static str {
        match self {
            Shape::Round => "spacer",
            Shape::Hex => "spacer-hex",
            Shape::Square => "spacer-square",
            Shape::Flanged => "spacer-flanged",
        }
    }

    /// The id of the tool that makes it.
    pub open spec fn spec_tool(self) -> &'static str {
        match self {
            Shape::Round => "example.spacers.round",
            Shape::Hex => "example.spacers.hex",
            Shape::Square => "example.spacers.square",
            Shape::Flanged => "example.spacers.flanged",
        }
    }

    /// The key of its tool.
    pub open spec fn spec_key(self) -> &'static str {
        match self {
            Shape::Round => "R",
            Shape::Hex => "H",
            Shape::Square => "S",
            Shape::Flanged => "F",
        }
    }

    /// What the panel calls its outside size.
    pub open spec fn spec_outer_label(self) -> &'static str {
        match self {
            Shape::Round | Shape::Flanged => "Diameter",
            Shape::Hex => "Across flats",
            Shape::Square => "Side",
        }
    }

    pub fn index(self) -> (r: usize)
        ensures
            r == self.spec_index(),
            shape_at(r as int) == Some(self),
    {
        match self {
            Shape::Round => 0,
            Shape::Hex => 1,
            Shape::Square => 2,
            Shape::Flanged => 3,
        }
    }

    /// The shape at `index` in the panel's list, if there is one.
    pub fn at(index: usize) -> (r: Option<Shape>)
        ensures
            r == shape_at(index as int),
            r is Some <==> index < SHAPE_COUNT,
    {
        match index {
            0 => Some(Shape::Round),
            1 => Some(Shape::Hex),
            2 => Some(Shape::Square),
            3 => Some(Shape::Flanged),
            _ => None,
        }
    }

    /// Every shape, in the order the panel lists them.
    pub fn all() -> (r: Vec<Shape>)
        ensures
            r@ == all_shapes(),
    {
        let mut v = Vec::new();
        v.push(Shape::Round);
        v.push(Shape::Hex);
        v.push(Shape::Square);
        v.push(Shape::Flanged);
        assert(v@ =~= all_shapes());
        v
    }

    pub fn name(self) -> (r: &'static str)
        ensures
            r == self.spec_name(),
    {
        match self {
            Shape::Round => "Round",
            Shape::Hex => "Hex",
            Shape::Square => "Square",
            Shape::Flanged => "Flanged",
        }
    }

    pub fn icon(self) -> (r: &'static str)
        ensures
            r == self.spec_icon(),
    {
        match self {
            Shape::Round => "spacer",
            Shape::Hex => "spacer-hex",
            Shape::Square => "spacer-square",
            Shape::Flanged => "spacer-flanged",
        }
    }

    pub fn tool(self) -> (r: &'static str)
        ensures
            r == self.spec_tool(),
    {
        match self {
            Shape::Round => "example.spacers.round",
            Shape::Hex => "example.spacers.hex",
            Shape::Square => "example.spacers.square",
            Shape::Flanged => "example.spacers.flanged",
        }
    }

    pub fn key(self) -> (r: &'static str)
        ensures
            r == self.spec_key(),
    {
        match self {
            Shape::Round => "R",
            Shape::Hex => "H",
            Shape::Square => "S",
            Shape::Flanged => "F",
        }
    }

    pub fn outer_label(self) -> (r: &'static str)
        ensures
            r == self.spec_outer_label(),
    {
        match self {
            Shape::Round | Shape::Flanged => "Diameter",
            Shape::Hex => "Across flats",
            Shape::Square => "Side",
        }
    }

    /// The label of its tool: its name and ` spacer`.
    pub fn tool_label(self) -> (r: String)
        ensures
            r@ == self.spec_name()@ + " spacer"@,
    {
        let mut s = String::from_str(self.name());
        s.append(" spacer");
        s
    }

    /// The shape called `name`, whatever the case of its letters.
    pub fn named(name: &str) -> (r: Option<Shape>)
        ensures
            r == shape_named(name@),
    {
        if eq_ignore_ascii_case(Shape::Round.name(), name) {
            Some(Shape::Round)
        } else if eq_ignore_ascii_case(Shape::Hex.name(), name) {
            Some(Shape::Hex)
        } else if eq_ignore_ascii_case(Shape::Square.name(), name) {
            Some(Shape::Square)
        } else if eq_ignore_ascii_case(Shape::Flanged.name(), name) {
            Some(Shape::Flanged)
        } else {
            None
        }
    }

    /// The shape whose tool is `tool`.
    pub fn for_tool(tool: &str) -> (r: Option<Shape>)
        ensures
            r == shape_of_tool(tool@),
    {
        if same_text(Shape::Round.tool(), tool) {
            Some(Shape::Round)
        } else if same_text(Shape::Hex.tool(), tool) {
            Some(Shape::Hex)
        } else if same_text(Shape::Square.tool(), tool) {
            Some(Shape::Square)
        } else if same_text(Shape::Flanged.tool(), tool) {
            Some(Shape::Flanged)
        } else {
            None
        }
    }
}

/// Each shape is at its own index in the panel's list.
pub proof fn lemma_index_round_trip(s: Shape)
    ensures
        shape_at(s.spec_index()) == Some(s),
        0 <= s.spec_index() < SHAPE_COUNT,
        all_shapes()[s.spec_index()] == s,
{
}

/// A shape's name, in any case of its letters, names that shape.
pub proof fn lemma_named_by_name(s: Shape, name: Seq<char>)
    requires
        same_ignoring_ascii_case(s.spec_name()@, name),
    ensures
        shape_named(name) == Some(s),
{
    reveal_strlit("Round");
    reveal_strlit("Hex");
    reveal_strlit("Square");
    reveal_strlit("Flanged");
    let round = Shape::Round.spec_name()@;
    let hex = Shape::Hex.spec_name()@;
    let square = Shape::Square.spec_name()@;
    let flanged = Shape::Flanged.spec_name()@;
    match s {
        Shape::Round => {},
        Shape::Hex => {
            assert(!same_ignoring_ascii_case(round, name)) by {
                assert(round.len() != name.len());
            }
        },
        Shape::Square => {
            assert(!same_ignoring_ascii_case(round, name)) by {
                assert(round.len() != name.len());
            }
            assert(!same_ignoring_ascii_case(hex, name)) by {
                assert(hex.len() != name.len());
            }
        },
        Shape::Flanged => {
            assert(!same_ignoring_ascii_case(round, name)) by {
                assert(round.len() != name.len());
            }
            assert(!same_ignoring_ascii_case(hex, name)) by {
                assert(hex.len() != name.len());
            }
            assert(!same_ignoring_ascii_case(square, name)) by {
                assert(square.len() != name.len());
            }
        },
    }
}

/// A shape's tool is that shape's tool alone.
pub proof fn lemma_tool_round_trip(s: Shape)
    ensures
        shape_of_tool(s.spec_tool()@) == Some(s),
{
    reveal_strlit("example.spacers.round");
    reveal_strlit("example.spacers.hex");
    reveal_strlit("example.spacers.square");
    reveal_strlit("example.spacers.flanged");
    let round = Shape::Round.spec_tool()@;
    let hex = Shape::Hex.spec_tool()@;
    let square = Shape::Square.spec_tool()@;
    let flanged = Shape::Flanged.spec_tool()@;
    assert(round.len() == 21);
    assert(hex.len() == 19);
    assert(square.len() == 22);
    assert(flanged.len() == 23);
}

/// `name` in small letters.
pub open spec fn small_letters(name: Seq<char>) -> Seq<char> {
    name.map_values(|c: char| ascii_lower(c) as char)
}

/// A shape's tool, icon and key go by its name: the tool is
/// `example.spacers.` and the name in small letters, the icon `spacer-` and
/// the name in small letters (plain `spacer` for the round one), the key the
/// name's first letter.
pub proof fn lemma_tool_icon_and_key_follow_the_name(s: Shape)
    ensures
        s.spec_tool()@ == "example.spacers."@ + small_letters(s.spec_name()@),
        s != Shape::Round ==> s.spec_icon()@ == "spacer-"@ + small_letters(s.spec_name()@),
        s == Shape::Round ==> s.spec_icon()@ == "spacer"@,
        s.spec_key()@ == seq![s.spec_name()@[0]],
{
    reveal_strlit("Round");
    reveal_strlit("Hex");
    reveal_strlit("Square");
    reveal_strlit("Flanged");
    reveal_strlit("spacer");
    reveal_strlit("spacer-hex");
    reveal_strlit("spacer-square");
    reveal_strlit("spacer-flanged");
    reveal_strlit("spacer-");
    reveal_strlit("example.spacers.");
    reveal_strlit("example.spacers.round");
    reveal_strlit("example.spacers.hex");
    reveal_strlit("example.spacers.square");
    reveal_strlit("example.spacers.flanged");
    reveal_strlit("R");
    reveal_strlit("H");
    reveal_strlit("S");
    reveal_strlit("F");
    assert(s.spec_tool()@ =~= "example.spacers."@ + small_letters(s.spec_name()@));
    assert(s != Shape::Round ==> s.spec_icon()@ =~= "spacer-"@ + small_letters(s.spec_name()@));
    assert(s.spec_key()@ =~= seq![s.spec_name()@[0]]);
}

/// What the panel calls the outside: a diameter for a round or flanged
/// spacer, the width across flats of a hex, the side of a square.
pub proof fn lemma_outer_labels(s: Shape)
    ensures
        s == Shape::Round || s == Shape::Flanged ==> s.spec_outer_label() == "Diameter",
        s == Shape::Hex ==> s.spec_outer_label() == "Across flats",
        s == Shape::Square ==> s.spec_outer_label() == "Side",
{
}

} // verus!
