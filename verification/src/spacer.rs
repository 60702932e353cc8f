//! A spacer's data, what is wrong with it, and the prisms that build it.
use vstd::prelude::*;
use crate::shape::{Shape, all_shapes, shape_at};
use crate::text::{same_text, trim_zeros, trimmed};

verus! {

/// The least width of wall on the two sides of a bore together, in
/// micrometres: 0.4 mm a side, a nozzle's width.
pub const MIN_WALLS: i64 = 800;

/// The least thickness a fitted flange gets, in micrometres.
pub const MIN_FITTED_FLANGE: i64 = 400;

/// The most thickness a fitted flange gets, in micrometres.
pub const MAX_FITTED_FLANGE: i64 = 2000;

/// What can be wrong with a spacer, in the order it is checked.
#[derive(Clone, Copy, Debug, PartialEq, Eq, Structural)]
pub enum Problem {
    NotPositive,
    NegativeBore,
    ThinWall,
    NarrowFlange,
    ThickFlange,
}

impl Problem {
    pub open spec fn spec_text(self) -> &'static str {
        match self {
            Problem::NotPositive => "The outside and the height must be more than 0.",
            Problem::NegativeBore => "The bore cannot be less than 0.",
            Problem::ThinWall => "The wall around the bore is thinner than 0.4 mm.",
            Problem::NarrowFlange => "The flange must be wider than the spacer.",
            Problem::ThickFlange => "The flange must be thinner than the spacer is tall.",
        }
    }

    /// The message that tells the user.
    pub fn text(self) -> (r: &'static str)
        ensures
            r == self.spec_text(),
    {
        match self {
            Problem::NotPositive => "The outside and the height must be more than 0.",
            Problem::NegativeBore => "The bore cannot be less than 0.",
            Problem::ThinWall => "The wall around the bore is thinner than 0.4 mm.",
            Problem::NarrowFlange => "The flange must be wider than the spacer.",
            Problem::ThickFlange => "The flange must be thinner than the spacer is tall.",
        }
    }
}

/// The outside outline of a spacer, about the origin of the XY plane.
#[derive(Clone, Copy, Debug, PartialEq, Eq, Structural)]
pub enum Outline {
    /// A circle of this diameter.
    Circle { diameter: i64 },
    /// A square of this side, its sides along X and Y.
    Square { side: i64 },
    /// A regular hexagon this wide across its flats, its flats square to X.
    Hex { across_flats: i64 },
}

impl Outline {
    /// The number of corners of a polygon; a circle has none.
    pub open spec fn spec_corners(self) -> nat {
        match self {
            Outline::Circle { .. } => 0,
            Outline::Square { .. } => 4,
            Outline::Hex { .. } => 6,
        }
    }

    pub fn corners(self) -> (r: usize)
        ensures
            r == self.spec_corners(),
    {
        match self {
            Outline::Circle { .. } => 0,
            Outline::Square { .. } => 4,
            Outline::Hex { .. } => 6,
        }
    }

    /// The sides of a polygon as pairs of its corners' numbers, going round:
    /// side `i` runs from corner `i` to the next, the last back to the
    /// first. A circle has none.
    pub fn edges(self) -> (r: Vec<(usize, usize)>)
        ensures
            r@.len() == self.spec_corners(),
            forall|i: int|
                0 <= i < r@.len() ==> #[trigger] r@[i] == (i as usize, ((i + 1) % r@.len() as int) as usize),
    {
        let n = self.corners();
        let mut edges: Vec<(usize, usize)> = Vec::new();
        let mut i: usize = 0;
        while i < n
            invariant
                n == self.spec_corners(),
                n <= 6,
                i <= n,
                edges@.len() == i,
                forall|j: int| 0 <= j < i ==> #[trigger] edges@[j] == (j as usize, ((j + 1) % n as int) as usize),
            decreases n - i,
        {
            edges.push((i, (i + 1) % n));
            i += 1;
        }
        edges
    }
}

/// How a prism joins the body's solid.
#[derive(Clone, Copy, Debug, PartialEq, Eq, Structural)]
pub enum Role {
    /// It starts the solid.
    NewSolid,
    /// It is fused to what is there.
    Fuse,
}

/// An outline, with a round bore through it when there is one, extruded
/// straight up from the XY plane.
#[derive(Clone, Copy, Debug, PartialEq, Eq, Structural)]
pub struct Prism {
    pub outline: Outline,
    /// The bore's diameter.
    pub bore: Option<i64>,
    pub height: i64,
    pub role: Role,
}

/// The role of the `i`th prism of a spacer; `first` when the spacer starts
/// its body's solid.
pub open spec fn role_of(first: bool, i: int) -> Role {
    if first && i == 0 {
        Role::NewSolid
    } else {
        Role::Fuse
    }
}

/// 1.5 times `outer`, to the nearest hundredth of a millimetre, halves away
/// from zero.
pub open spec fn wider_flange(outer: int) -> int {
    if outer >= 0 {
        (3 * outer + 10) / 20 * 10
    } else {
        -((-3 * outer + 10) / 20 * 10)
    }
}

/// `v`, or the end of the range of `i64` it is beyond.
pub open spec fn saturate(v: int) -> i64 {
    if v > i64::MAX {
        i64::MAX
    } else if v < i64::MIN {
        i64::MIN
    } else {
        v as i64
    }
}

/// A quarter of `height`, to the micrometre, halves up, but from 0.4 mm to
/// 2 mm.
pub open spec fn fitted_flange_height(height: int) -> int {
    if height <= 4 * MIN_FITTED_FLANGE {
        MIN_FITTED_FLANGE as int
    } else if height >= 4 * MAX_FITTED_FLANGE {
        MAX_FITTED_FLANGE as int
    } else {
        (height + 2) / 4
    }
}

/// Whether `key` names one of the lengths every spacer has.
pub open spec fn is_body_key(key: Seq<char>) -> bool {
    ||| key == "outer"@
    ||| key == "bore"@
    ||| key == "height"@
}

/// Whether `key` names one of a flange's lengths.
pub open spec fn is_flange_key(key: Seq<char>) -> bool {
    ||| key == "flange"@
    ||| key == "flange_height"@
}

/// A number the task panel shows, by its key.
#[derive(Clone, Copy, Debug)]
pub struct NumberField {
    pub key: &'static str,
    pub label: &'static str,
    pub value: i64,
}

/// What the task panel of a spacer holds, from the top: a choice of shape,
/// its numbers, and what is wrong with it, if anything.
#[derive(Clone, Debug)]
pub struct TaskPanel {
    /// The shapes' names, in the panel's order.
    pub options: Vec<&'static str>,
    /// The place of its shape among them.
    pub selected: usize,
    pub numbers: Vec<NumberField>,
    pub problem: Option<&'static str>,
}

/// A change to a widget of a panel, by the widget's id.
#[derive(Clone, Debug, PartialEq, Eq)]
pub enum PanelChange {
    /// The entry at `index` of a choice was picked.
    Choice { index: usize },
    /// A number was set, in micrometres.
    Number { id: String, value: i64 },
    /// Anything else.
    Other,
}

/// A spacer's data. Lengths in micrometres.
#[derive(Clone, Copy, Debug, PartialEq, Eq, Structural)]
pub struct Spacer {
    pub shape: Shape,
    /// The diameter, the width across flats of a hex, or a square's side.
    pub outer: i64,
    pub bore: i64,
    pub height: i64,
    /// A flanged spacer's collar: its diameter and its thickness. A spacer
    /// of another shape, or one saved before flanges were offered, reads 0.
    pub flange: i64,
    pub flange_height: i64,
}

impl Spacer {
    /// Whether its flange is wider than it and thinner than it is tall.
    pub open spec fn flange_fits(self) -> bool {
        &&& self.flange > self.outer
        &&& 0 < self.flange_height < self.height
    }

    /// Whether a spacer of another shape than flanged reads 0 for its
    /// flange and its thickness.
    pub open spec fn flange_only_when_flanged(self) -> bool {
        self.shape != Shape::Flanged ==> self.flange == 0 && self.flange_height == 0
    }

    /// Its data as a spacer reads it: a spacer of another shape than
    /// flanged has no flange.
    pub open spec fn spec_settled(self) -> Spacer {
        if self.shape == Shape::Flanged {
            self
        } else {
            Spacer { flange: 0, flange_height: 0, ..self }
        }
    }

    /// Its data as a spacer reads it: a spacer of another shape than
    /// flanged reads 0 for its flange and its thickness.
    pub fn settled(self) -> (r: Spacer)
        ensures
            r == self.spec_settled(),
            r.flange_only_when_flanged(),
    {
        if self.shape == Shape::Flanged {
            self
        } else {
            Spacer { flange: 0, flange_height: 0, ..self }
        }
    }

    /// Whether it can be printed: positive sizes, a bore of no negative
    /// size, a wall a nozzle can print around the bore, and a flange that
    /// fits when it has one.
    pub open spec fn printable(self) -> bool {
        &&& self.outer > 0
        &&& self.height > 0
        &&& self.bore >= 0
        &&& self.bore > 0 ==> self.outer - self.bore >= MIN_WALLS
        &&& self.shape == Shape::Flanged ==> self.flange_fits()
    }

    /// The first thing wrong with it.
    pub open spec fn spec_problem(self) -> Option<Problem> {
        if self.outer <= 0 || self.height <= 0 {
            Some(Problem::NotPositive)
        } else if self.bore < 0 {
            Some(Problem::NegativeBore)
        } else if self.bore > 0 && self.outer - self.bore < MIN_WALLS {
            Some(Problem::ThinWall)
        } else if self.shape == Shape::Flanged && self.flange <= self.outer {
            Some(Problem::NarrowFlange)
        } else if self.shape == Shape::Flanged && (self.flange_height <= 0 || self.flange_height
            >= self.height) {
            Some(Problem::ThickFlange)
        } else {
            None
        }
    }

    /// The message of the first thing wrong with it.
    pub open spec fn problem_text(self) -> Option<&'static str> {
        match self.spec_problem() {
            Some(p) => Some(p.spec_text()),
            None => None,
        }
    }

    /// What is wrong with it, if anything.
    pub fn problem(&self) -> (r: Option<&'static str>)
        ensures
            r == self.problem_text(),
            r is None <==> self.printable(),
    {
        if self.outer <= 0 || self.height <= 0 {
            return Some(Problem::NotPositive.text());
        }
        if self.bore < 0 {
            return Some(Problem::NegativeBore.text());
        }
        if self.bore > 0 && self.outer - self.bore < MIN_WALLS {
            return Some(Problem::ThinWall.text());
        }
        if self.shape == Shape::Flanged {
            if self.flange <= self.outer {
                return Some(Problem::NarrowFlange.text());
            }
            if self.flange_height <= 0 || self.flange_height >= self.height {
                return Some(Problem::ThickFlange.text());
            }
        }
        None
    }

    /// It with a flange to go with its outside diameter: a flange no wider
    /// than it gets 1.5 times its diameter; a flange 0 or less thick, or as
    /// thick as it is tall or more, gets a quarter of its height, from
    /// 0.4 mm to 2 mm. What already fits stays.
    pub open spec fn fitted(self) -> Spacer {
        Spacer {
            flange: if self.flange <= self.outer {
                saturate(wider_flange(self.outer as int))
            } else {
                self.flange
            },
            flange_height: if self.flange_height <= 0 || self.flange_height >= self.height {
                fitted_flange_height(self.height as int) as i64
            } else {
                self.flange_height
            },
            ..self
        }
    }

    /// A flange to go with an outside diameter.
    pub fn fit_flange(&mut self)
        ensures
            *final(self) == old(self).fitted(),
    {
        if self.flange <= self.outer {
            let o = self.outer as i128;
            let f: i128 = if o >= 0 {
                (3 * o + 10) / 20 * 10
            } else {
                -((-3 * o + 10) / 20 * 10)
            };
            self.flange = if f > i64::MAX as i128 {
                i64::MAX
            } else if f < i64::MIN as i128 {
                i64::MIN
            } else {
                f as i64
            };
        }
        if self.flange_height <= 0 || self.flange_height >= self.height {
            self.flange_height = if self.height <= 4 * MIN_FITTED_FLANGE {
                MIN_FITTED_FLANGE
            } else if self.height >= 4 * MAX_FITTED_FLANGE {
                MAX_FITTED_FLANGE
            } else {
                (self.height + 2) / 4
            };
        }
    }

    /// Its outside outline.
    pub open spec fn spec_outline(self) -> Outline {
        match self.shape {
            Shape::Round | Shape::Flanged => Outline::Circle { diameter: self.outer },
            Shape::Square => Outline::Square { side: self.outer },
            Shape::Hex => Outline::Hex { across_flats: self.outer },
        }
    }

    /// The outside outline, on the XY plane about the origin.
    pub fn outline(&self) -> (r: Outline)
        ensures
            r == self.spec_outline(),
    {
        match self.shape {
            Shape::Round | Shape::Flanged => Outline::Circle { diameter: self.outer },
            Shape::Square => Outline::Square { side: self.outer },
            Shape::Hex => Outline::Hex { across_flats: self.outer },
        }
    }

    /// `outline` with its bore through it, `height` tall, starting a solid.
    pub open spec fn spec_prism(self, outline: Outline, height: i64) -> Prism {
        Prism {
            outline,
            bore: if self.bore > 0 {
                Some(self.bore)
            } else {
                None
            },
            height,
            role: Role::NewSolid,
        }
    }

    /// `outline` with the bore through it, extruded `height` up.
    pub fn prism(&self, outline: Outline, height: i64) -> (r: Prism)
        ensures
            r == self.spec_prism(outline, height),
    {
        Prism {
            outline,
            bore: if self.bore > 0 {
                Some(self.bore)
            } else {
                None
            },
            height,
            role: Role::NewSolid,
        }
    }

    /// The prisms that build it, before their roles: its flange first when
    /// it has one, then its body.
    pub open spec fn spec_prisms(self) -> Seq<Prism> {
        let body = self.spec_prism(self.spec_outline(), self.height);
        if self.shape == Shape::Flanged {
            seq![
                self.spec_prism(Outline::Circle { diameter: self.flange }, self.flange_height),
                body,
            ]
        } else {
            seq![body]
        }
    }

    /// The prisms that build it, each with its role.
    pub open spec fn spec_ops(self, first: bool) -> Seq<Prism> {
        Seq::new(
            self.spec_prisms().len(),
            |i: int| Prism { role: role_of(first, i), ..self.spec_prisms()[i] },
        )
    }

    /// The kernel ops that build it: its body, and first its flange when it
    /// has one. `first` starts the body's solid; later spacers fuse to it.
    pub fn ops(&self, first: bool) -> (r: Vec<Prism>)
        ensures
            r@ == self.spec_ops(first),
    {
        let mut ops: Vec<Prism> = Vec::new();
        if self.shape == Shape::Flanged {
            ops.push(self.prism(Outline::Circle { diameter: self.flange }, self.flange_height));
        }
        ops.push(self.prism(self.outline(), self.height));
        let n = ops.len();
        let mut i: usize = 0;
        while i < n
            invariant
                n == self.spec_prisms().len(),
                i <= n,
                ops@.len() == n,
                forall|j: int|
                    0 <= j < i ==> ops@[j] == (Prism {
                        role: role_of(first, j),
                        ..self.spec_prisms()[j]
                    }),
                forall|j: int| i <= j < n ==> ops@[j] == self.spec_prisms()[j],
            decreases n - i,
        {
            let role = if first && i == 0 {
                Role::NewSolid
            } else {
                Role::Fuse
            };
            let op = Prism { role, ..ops[i] };
            ops.set(i, op);
            i += 1;
        }
        assert(ops@ =~= self.spec_ops(first));
        ops
    }

    /// Its name in the tree and the view, from its lengths `outer`,
    /// `flange` and `height` written in millimetres to two decimals: the
    /// shape's sign, the outside and a flanged spacer's flange, and the
    /// height, each without trailing zeros.
    pub open spec fn spec_label(self, outer: Seq<char>, flange: Seq<char>, height: Seq<char>) -> Seq<
        char,
    > {
        match self.shape {
            Shape::Round => "Ø"@ + trimmed(outer) + " × "@ + trimmed(height),
            Shape::Hex => "⬡"@ + trimmed(outer) + " × "@ + trimmed(height),
            Shape::Square => "□"@ + trimmed(outer) + " × "@ + trimmed(height),
            Shape::Flanged => "Ø"@ + trimmed(outer) + "/"@ + trimmed(flange) + " × "@ + trimmed(
                height,
            ),
        }
    }

    /// Its label, from its outside, flange and height written in
    /// millimetres to two decimals.
    pub fn label(&self, outer: &str, flange: &str, height: &str) -> (r: String)
        ensures
            r@ == self.spec_label(outer@, flange@, height@),
    {
        let outer = trim_zeros(outer);
        let height = trim_zeros(height);
        let mut s = match self.shape {
            Shape::Round | Shape::Flanged => String::from_str("Ø"),
            Shape::Hex => String::from_str("⬡"),
            Shape::Square => String::from_str("□"),
        };
        s.append(outer.as_str());
        if self.shape == Shape::Flanged {
            s.append("/");
            let flange = trim_zeros(flange);
            s.append(flange.as_str());
        }
        s.append(" × ");
        s.append(height.as_str());
        s
    }
}

impl Spacer {
    /// Whether `key` names one of its lengths: the outside, the bore, the
    /// height, and a flanged spacer's flange and its thickness.
    pub open spec fn has_length(self, key: Seq<char>) -> bool {
        is_body_key(key) || (self.shape == Shape::Flanged && is_flange_key(key))
    }

    /// It with the length that `key` names set to `value`; unchanged when
    /// `key` names none of its lengths.
    pub open spec fn with_length(self, key: Seq<char>, value: i64) -> Spacer {
        if key == "outer"@ {
            Spacer { outer: value, ..self }
        } else if key == "bore"@ {
            Spacer { bore: value, ..self }
        } else if key == "height"@ {
            Spacer { height: value, ..self }
        } else if self.shape != Shape::Flanged {
            self
        } else if key == "flange"@ {
            Spacer { flange: value, ..self }
        } else if key == "flange_height"@ {
            Spacer { flange_height: value, ..self }
        } else {
            self
        }
    }

    /// Sets the length that `key` names; whether it names one of its
    /// lengths. A spacer of another shape than flanged has no flange to set.
    pub fn set_length(&mut self, key: &str, value: i64) -> (found: bool)
        ensures
            found == old(self).has_length(key@),
            *final(self) == old(self).with_length(key@, value),
    {
        if same_text(key, "outer") {
            self.outer = value;
        } else if same_text(key, "bore") {
            self.bore = value;
        } else if same_text(key, "height") {
            self.height = value;
        } else if self.shape != Shape::Flanged {
            return false;
        } else if same_text(key, "flange") {
            self.flange = value;
        } else if same_text(key, "flange_height") {
            self.flange_height = value;
        } else {
            return false;
        }
        true
    }

    /// The data after a change to its task panel: the shape at the picked
    /// place (Round past the list's end), with a flange fitted to a flanged
    /// one and none on another; or the length that a number's id names;
    /// nothing for any other change.
    pub open spec fn spec_changed(self, change: PanelChange) -> Option<Spacer> {
        match change {
            PanelChange::Choice { index } => {
                let shape = match shape_at(index as int) {
                    Some(shape) => shape,
                    None => Shape::Round,
                };
                let picked = Spacer { shape, ..self };
                Some(
                    if shape == Shape::Flanged {
                        picked.fitted()
                    } else {
                        Spacer { flange: 0, flange_height: 0, ..picked }
                    },
                )
            },
            PanelChange::Number { id, value } => {
                if self.has_length(id@) {
                    Some(self.with_length(id@, value))
                } else {
                    None
                }
            },
            PanelChange::Other => None,
        }
    }

    /// The data after a change to its task panel, when the change is one.
    pub fn changed(&self, change: &PanelChange) -> (r: Option<Spacer>)
        ensures
            r == self.spec_changed(*change),
    {
        match change {
            PanelChange::Choice { index } => {
                let shape = match Shape::at(*index) {
                    Some(shape) => shape,
                    None => Shape::Round,
                };
                let mut picked = Spacer { shape, ..*self };
                if shape == Shape::Flanged {
                    picked.fit_flange();
                } else {
                    picked.flange = 0;
                    picked.flange_height = 0;
                }
                Some(picked)
            },
            PanelChange::Number { id, value } => {
                let mut edited = *self;
                if edited.set_length(id.as_str(), *value) {
                    Some(edited)
                } else {
                    None
                }
            },
            PanelChange::Other => None,
        }
    }

    /// The numbers of its task panel: the outside, under the shape's name
    /// for it, the bore and the height, then a flanged spacer's flange.
    pub open spec fn spec_task_numbers(self) -> Seq<NumberField> {
        seq![
            NumberField { key: "outer", label: self.shape.spec_outer_label(), value: self.outer },
            NumberField { key: "bore", label: "Bore", value: self.bore },
            NumberField { key: "height", label: "Height", value: self.height },
        ] + if self.shape == Shape::Flanged {
            seq![
                NumberField { key: "flange", label: "Flange diameter", value: self.flange },
                NumberField {
                    key: "flange_height",
                    label: "Flange thickness",
                    value: self.flange_height,
                },
            ]
        } else {
            seq![]
        }
    }

    pub fn task_numbers(&self) -> (r: Vec<NumberField>)
        ensures
            r@ == self.spec_task_numbers(),
    {
        let mut v = Vec::new();
        v.push(NumberField { key: "outer", label: self.shape.outer_label(), value: self.outer });
        v.push(NumberField { key: "bore", label: "Bore", value: self.bore });
        v.push(NumberField { key: "height", label: "Height", value: self.height });
        if self.shape == Shape::Flanged {
            v.push(NumberField { key: "flange", label: "Flange diameter", value: self.flange });
            v.push(
                NumberField {
                    key: "flange_height",
                    label: "Flange thickness",
                    value: self.flange_height,
                },
            );
        }
        assert(v@ =~= self.spec_task_numbers());
        v
    }
}

impl Spacer {
    /// Its task panel: the shapes' names with its own picked, its numbers,
    /// and its problem.
    pub fn task_panel(&self) -> (r: TaskPanel)
        ensures
            r.options@ == all_shapes().map_values(|shape: Shape| shape.spec_name()),
            r.selected == self.shape.spec_index(),
            r.numbers@ == self.spec_task_numbers(),
            r.problem == self.problem_text(),
    {
        let shapes = Shape::all();
        let mut options: Vec<&'static str> = Vec::new();
        let mut i: usize = 0;
        while i < shapes.len()
            invariant
                shapes@ == all_shapes(),
                i <= shapes@.len(),
                options@ == all_shapes().take(i as int).map_values(|shape: Shape| shape.spec_name()),
            decreases shapes@.len() - i,
        {
            options.push(shapes[i].name());
            i += 1;
            assert(options@ =~= all_shapes().take(i as int).map_values(
                |shape: Shape| shape.spec_name(),
            ));
        }
        assert(all_shapes().take(4) =~= all_shapes());
        TaskPanel {
            options,
            selected: self.shape.index(),
            numbers: self.task_numbers(),
            problem: self.problem(),
        }
    }
}

/// The lengths of a feature that formulas may set, key and label: the
/// outside, the bore and the height, and a flanged spacer's flange.
pub open spec fn spec_length_parameters(spacer: Option<Spacer>) -> Seq<(&'static str, &'static str)> {
    seq![("outer", "Outside"), ("bore", "Bore"), ("height", "Height")] + if spacer matches Some(
        s,
    ) && s.shape == Shape::Flanged {
        seq![("flange", "Flange"), ("flange_height", "Flange thickness")]
    } else {
        seq![]
    }
}

/// The lengths of a feature whose data reads as `spacer` that formulas may
/// set.
pub fn length_parameters(spacer: Option<Spacer>) -> (r: Vec<(&'static str, &'static str)>)
    ensures
        r@ == spec_length_parameters(spacer),
{
    let mut v = Vec::new();
    v.push(("outer", "Outside"));
    v.push(("bore", "Bore"));
    v.push(("height", "Height"));
    let flanged = match spacer {
        Some(s) => s.shape == Shape::Flanged,
        None => false,
    };
    if flanged {
        v.push(("flange", "Flange"));
        v.push(("flange_height", "Flange thickness"));
    }
    assert(v@ =~= spec_length_parameters(spacer));
    v
}

/// A change to the task panel keeps a spacer of another shape than flanged
/// without a flange; picking a shape other than flanged takes the flange
/// away.
pub proof fn lemma_changes_keep_flange_only_when_flanged(s: Spacer, change: PanelChange)
    requires
        s.flange_only_when_flanged(),
    ensures
        s.spec_changed(change) matches Some(t) ==> t.flange_only_when_flanged(),
{
}

/// Picking a shape other than flanged in the task panel leaves no flange,
/// whatever flange the spacer had.
pub proof fn lemma_picking_another_shape_drops_the_flange(s: Spacer, index: usize)
    requires
        shape_at(index as int) != Some(Shape::Flanged),
    ensures
        s.spec_changed(PanelChange::Choice { index }) matches Some(t) && t.flange == 0
            && t.flange_height == 0 && t.shape != Shape::Flanged,
{
}

/// The flanged fitting is done once: fitting a fitted spacer again changes
/// nothing.
pub proof fn lemma_fit_flange_idempotent(s: Spacer)
    ensures
        s.fitted().fitted() == s.fitted(),
{
}

/// A flange that already fits is kept as it is.
pub proof fn lemma_fit_flange_keeps_a_fitting_flange(s: Spacer)
    requires
        s.flange_fits(),
    ensures
        s.fitted() == s,
{
}

/// A spacer at least 4 µm across and more than 0.4 mm tall has a flange that
/// fits once fitted. (A thinner one rounds its flange to no wider than
/// itself; a shorter one gets a flange 0.4 mm thick, no thinner than it is
/// tall; one `i64::MAX` across gets a flange as wide.)
pub proof fn lemma_fitted_flange_fits(s: Spacer)
    requires
        4 <= s.outer < i64::MAX,
        s.height > MIN_FITTED_FLANGE,
    ensures
        s.fitted().flange_fits(),
{
    let o = s.outer as int;
    let q = (3 * o + 10) / 20;
    assert(20 * q <= 3 * o + 10 < 20 * q + 20);
    assert(wider_flange(o) == q * 10);
    assert(q * 10 > o);
}

/// The flange of a spacer of another shape than flanged does not matter to
/// whether it can be printed: data saved before flanges were offered reads
/// the same.
pub proof fn lemma_flange_matters_only_when_flanged(s: Spacer, flange: i64, flange_height: i64)
    requires
        s.shape != Shape::Flanged,
    ensures
        (Spacer { flange, flange_height, ..s }).spec_problem() == s.spec_problem(),
{
}

/// A flanged spacer is two extrusions fused, its flange first; another is
/// one extrusion. Only the first prism of the spacer that starts a body's
/// solid starts it.
pub proof fn lemma_ops_shape(s: Spacer, first: bool)
    ensures
        s.shape == Shape::Flanged ==> {
            &&& s.spec_ops(first).len() == 2
            &&& s.spec_ops(first)[0].outline == (Outline::Circle { diameter: s.flange })
            &&& s.spec_ops(first)[0].height == s.flange_height
            &&& s.spec_ops(first)[1].outline == s.spec_outline()
            &&& s.spec_ops(first)[1].height == s.height
            &&& s.spec_ops(first)[1].role == Role::Fuse
        },
        s.shape != Shape::Flanged ==> {
            &&& s.spec_ops(first).len() == 1
            &&& s.spec_ops(first)[0].outline == s.spec_outline()
            &&& s.spec_ops(first)[0].height == s.height
        },
        s.spec_ops(first)[0].role == (if first {
            Role::NewSolid
        } else {
            Role::Fuse
        }),
        forall|i: int|
            0 <= i < s.spec_ops(first).len() ==> (#[trigger] s.spec_ops(first)[i]).bore == (if s.bore
                > 0 {
                Some(s.bore)
            } else {
                None
            }),
{
}

/// The keys of a spacer's lengths are five different texts.
pub(crate) proof fn lemma_length_keys_differ()
    ensures
        "outer"@ != "bore"@,
        "outer"@ != "height"@,
        "outer"@ != "flange"@,
        "outer"@ != "flange_height"@,
        "bore"@ != "height"@,
        "bore"@ != "flange"@,
        "bore"@ != "flange_height"@,
        "height"@ != "flange"@,
        "height"@ != "flange_height"@,
        "flange"@ != "flange_height"@,
{
    reveal_strlit("outer");
    reveal_strlit("bore");
    reveal_strlit("height");
    reveal_strlit("flange");
    reveal_strlit("flange_height");
    assert("outer"@.len() == 5);
    assert("bore"@.len() == 4);
    assert("height"@.len() == 6);
    assert("flange"@.len() == 6);
    assert("flange_height"@.len() == 13);
    assert("height"@[0] == 'h');
    assert("flange"@[0] == 'f');
}

/// A widened flange is 1.5 times the outside to the nearest multiple of
/// 10 µm (a hundredth of a millimetre), a half going away from zero.
pub proof fn lemma_wider_flange_is_one_and_a_half_times(outer: int)
    ensures
        wider_flange(outer) % 10 == 0,
        outer >= 0 ==> 3 * outer - 10 < 2 * wider_flange(outer) <= 3 * outer + 10,
        outer < 0 ==> 3 * outer - 10 <= 2 * wider_flange(outer) < 3 * outer + 10,
{
    let p = if outer >= 0 { outer } else { -outer };
    let q = (3 * p + 10) / 20;
    assert(20 * q <= 3 * p + 10 < 20 * q + 20);
    assert((q * 10) % 10 == 0);
    assert((-(q * 10)) % 10 == 0);
}

/// A value of `i64`'s range is kept; one beyond it becomes the end it is
/// beyond.
pub proof fn lemma_saturate(v: int)
    ensures
        i64::MIN <= v <= i64::MAX ==> saturate(v) == v,
        v > i64::MAX ==> saturate(v) == i64::MAX,
        v < i64::MIN ==> saturate(v) == i64::MIN,
{
}

/// A fitted flange thickness is a quarter of the height, to the micrometre
/// with halves up, from 0.4 mm to 2 mm.
pub proof fn lemma_fitted_flange_height_is_a_quarter(height: int)
    ensures
        400 <= fitted_flange_height(height) <= 2000,
        height <= 1600 ==> fitted_flange_height(height) == 400,
        height >= 8000 ==> fitted_flange_height(height) == 2000,
        1600 < height < 8000 ==> height - 2 < 4 * fitted_flange_height(height) <= height + 2,
{
}

/// Fitting a flange changes nothing but the flange. A diameter wider than
/// the spacer stays, whatever the thickness; a narrower one becomes 1.5
/// times the outside. A thickness between 0 and the height stays, whatever
/// the diameter; another becomes a quarter of the height.
pub proof fn lemma_fit_flange_fields(s: Spacer)
    ensures
        s.fitted().shape == s.shape,
        s.fitted().outer == s.outer,
        s.fitted().bore == s.bore,
        s.fitted().height == s.height,
        s.flange > s.outer ==> s.fitted().flange == s.flange,
        s.flange <= s.outer ==> s.fitted().flange == saturate(wider_flange(s.outer as int)),
        0 < s.flange_height < s.height ==> s.fitted().flange_height == s.flange_height,
        !(0 < s.flange_height < s.height) ==> s.fitted().flange_height == fitted_flange_height(
            s.height as int,
        ),
{
}

/// Setting a length sets the field its key names to the value and leaves
/// every other field; a flange's lengths only on a flanged spacer. A key
/// that names none of its lengths changes nothing.
pub proof fn lemma_set_length_sets_the_named_field(s: Spacer, key: Seq<char>, v: i64)
    ensures
        key == "outer"@ ==> s.with_length(key, v) == (Spacer { outer: v, ..s }),
        key == "bore"@ ==> s.with_length(key, v) == (Spacer { bore: v, ..s }),
        key == "height"@ ==> s.with_length(key, v) == (Spacer { height: v, ..s }),
        key == "flange"@ && s.shape == Shape::Flanged ==> s.with_length(key, v) == (Spacer {
            flange: v,
            ..s
        }),
        key == "flange_height"@ && s.shape == Shape::Flanged ==> s.with_length(key, v) == (
        Spacer { flange_height: v, ..s }),
        s.has_length(key) <==> (key == "outer"@ || key == "bore"@ || key == "height"@ || (s.shape
            == Shape::Flanged && (key == "flange"@ || key == "flange_height"@))),
        !s.has_length(key) ==> s.with_length(key, v) == s,
{
    lemma_length_keys_differ();
}

/// Each number of the task panel shows the length its key names, under
/// its own label: the outside, the bore and the height, and a flanged
/// spacer's flange and its thickness.
pub proof fn lemma_task_numbers_show_their_lengths(s: Spacer)
    ensures
        s.spec_task_numbers().len() == if s.shape == Shape::Flanged {
            5int
        } else {
            3int
        },
        forall|i: int|
            #![trigger s.spec_task_numbers()[i]]
            0 <= i < s.spec_task_numbers().len() ==> {
                let n = s.spec_task_numbers()[i];
                &&& n.key@ == "outer"@ ==> n.value == s.outer && n.label
                    == s.shape.spec_outer_label()
                &&& n.key@ == "bore"@ ==> n.value == s.bore && n.label == "Bore"
                &&& n.key@ == "height"@ ==> n.value == s.height && n.label == "Height"
                &&& n.key@ == "flange"@ ==> n.value == s.flange && n.label == "Flange diameter"
                &&& n.key@ == "flange_height"@ ==> n.value == s.flange_height && n.label
                    == "Flange thickness"
                &&& s.has_length(n.key@)
            },
        s.spec_task_numbers()[0].key == "outer",
        s.spec_task_numbers()[1].key == "bore",
        s.spec_task_numbers()[2].key == "height",
        s.shape == Shape::Flanged ==> s.spec_task_numbers()[3].key == "flange"
            && s.spec_task_numbers()[4].key == "flange_height",
{
    lemma_length_keys_differ();
    let n = s.spec_task_numbers();
    assert(n[0].key == "outer" && n[0].value == s.outer);
    assert(n[1].key == "bore" && n[1].value == s.bore);
    assert(n[2].key == "height" && n[2].value == s.height);
    if s.shape == Shape::Flanged {
        assert(n[3].key == "flange" && n[3].value == s.flange);
        assert(n[4].key == "flange_height" && n[4].value == s.flange_height);
    }
}

/// The outline is the shape's, as wide as the outside: a circle of its
/// diameter for a round or flanged spacer, a square of its side, a hexagon
/// of its width across flats.
pub proof fn lemma_outline_is_the_shape_as_wide_as_the_outside(s: Spacer)
    ensures
        s.shape == Shape::Round || s.shape == Shape::Flanged ==> s.spec_outline() == (
        Outline::Circle { diameter: s.outer }),
        s.shape == Shape::Square ==> s.spec_outline() == (Outline::Square { side: s.outer }),
        s.shape == Shape::Hex ==> s.spec_outline() == (Outline::Hex { across_flats: s.outer }),
{
}

/// Picking a shape in the task panel gives the shape at the picked place
/// (Round past the list's end) and keeps the outside, the bore and the
/// height; a flanged spacer gets its flange fitted to them, another none.
pub proof fn lemma_picking_a_shape(s: Spacer, index: usize)
    ensures
        s.spec_changed(PanelChange::Choice { index }) matches Some(t) && {
            &&& t.shape == (if index < 4 {
                shape_at(index as int).unwrap()
            } else {
                Shape::Round
            })
            &&& t.outer == s.outer
            &&& t.bore == s.bore
            &&& t.height == s.height
            &&& t.shape == Shape::Flanged ==> t == (Spacer { shape: Shape::Flanged, ..s }).fitted()
            &&& t.shape != Shape::Flanged ==> t.flange == 0 && t.flange_height == 0
        },
{
}

/// The first thing wrong is checked in this order: the outside and the
/// height, the bore, the wall, the flange's width, its thickness.
pub proof fn lemma_problem_order(s: Spacer)
    ensures
        s.outer <= 0 || s.height <= 0 ==> s.spec_problem() == Some(Problem::NotPositive),
        s.outer > 0 && s.height > 0 && s.bore < 0 ==> s.spec_problem() == Some(
            Problem::NegativeBore,
        ),
        s.outer > 0 && s.height > 0 && s.bore > 0 && s.outer - s.bore < 800 ==> s.spec_problem()
            == Some(Problem::ThinWall),
        s.printable() ==> s.spec_problem() is None,
        !s.printable() ==> s.spec_problem() is Some,
{
}

/// As a spacer reads, only a flanged one keeps its flange; nothing else
/// about it changes.
pub proof fn lemma_settled_drops_only_a_stray_flange(s: Spacer)
    ensures
        s.spec_settled().shape == s.shape,
        s.spec_settled().outer == s.outer,
        s.spec_settled().bore == s.bore,
        s.spec_settled().height == s.height,
        s.shape == Shape::Flanged ==> s.spec_settled() == s,
        s.shape != Shape::Flanged ==> s.spec_settled().flange == 0
            && s.spec_settled().flange_height == 0,
{
}

/// A number set on the task panel sets the length its id names, when the
/// spacer has that length; any other number changes nothing, and nor does
/// any other change than a number or a choice.
pub proof fn lemma_setting_a_number(s: Spacer, id: String, v: i64)
    ensures
        s.has_length(id@) ==> s.spec_changed(PanelChange::Number { id, value: v }) == Some(
            s.with_length(id@, v),
        ),
        !s.has_length(id@) ==> s.spec_changed(PanelChange::Number { id, value: v }) is None,
        s.spec_changed(PanelChange::Other) is None,
{
}

/// Formulas may set the outside, the bore and the height of every spacer,
/// and the flange and its thickness only of a flanged one.
pub proof fn lemma_length_parameters(spacer: Option<Spacer>)
    ensures
        spec_length_parameters(spacer).len() == if spacer matches Some(s) && s.shape
            == Shape::Flanged {
            5int
        } else {
            3int
        },
        spec_length_parameters(spacer)[0] == ("outer", "Outside"),
        spec_length_parameters(spacer)[1] == ("bore", "Bore"),
        spec_length_parameters(spacer)[2] == ("height", "Height"),
        spacer matches Some(s) && s.shape == Shape::Flanged ==> spec_length_parameters(spacer)[3]
            == ("flange", "Flange") && spec_length_parameters(spacer)[4] == (
            "flange_height",
            "Flange thickness",
        ),
{
}

} // verus!
