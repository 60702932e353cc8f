//! The workbench's state and decisions: the sizes new spacers start from,
//! the spacer under edit, the make command, input and menus.
use vstd::prelude::*;
use crate::shape::{Shape, shape_named, shape_of_tool};
use crate::spacer::{
    NumberField, PanelChange, Spacer, fitted_flange_height, lemma_fit_flange_fields,
    lemma_length_keys_differ, saturate, wider_flange,
};
use crate::text::same_text;

verus! {

/// The feature kind of a spacer.
pub const KIND: &'static str = "example.spacers.spacer";

/// The command that makes a spacer.
pub const MAKE: &'static str = "example.spacers.make";

/// The tree menu's entry that opens a spacer's task.
pub const EDIT: &'static str = "example.spacers.edit";

/// What a new spacer starts from. Lengths in micrometres.
#[derive(Clone, Copy, Debug, PartialEq, Eq, Structural)]
pub struct Defaults {
    pub outer: i64,
    pub bore: i64,
    pub height: i64,
}

impl Default for Defaults {
    /// 8 mm across, a 3.4 mm bore, 10 mm tall.
    fn default() -> (r: Self)
        ensures
            r == (Defaults { outer: 8000, bore: 3400, height: 10000 }),
    {
        Defaults { outer: 8000, bore: 3400, height: 10000 }
    }
}

impl Defaults {
    /// Sizes a spacer can start from: positive outside and height, a bore
    /// of no negative size.
    pub open spec fn valid(self) -> bool {
        &&& self.outer > 0
        &&& self.bore >= 0
        &&& self.height > 0
    }

    /// The defaults after the settings page set the number `key` to
    /// `value`: a positive outside or height, or a bore of no negative
    /// size, is taken; anything else leaves them as they were.
    pub open spec fn spec_set(self, key: Seq<char>, value: i64) -> Defaults {
        if key == "outer"@ {
            if value > 0 {
                Defaults { outer: value, ..self }
            } else {
                self
            }
        } else if key == "bore"@ {
            if value >= 0 {
                Defaults { bore: value, ..self }
            } else {
                self
            }
        } else if key == "height"@ {
            if value > 0 {
                Defaults { height: value, ..self }
            } else {
                self
            }
        } else {
            self
        }
    }

    /// The settings page set the number `key` to `value`.
    pub fn set(&mut self, key: &str, value: i64)
        ensures
            *final(self) == old(self).spec_set(key@, value),
    {
        if same_text(key, "outer") {
            if value > 0 {
                self.outer = value;
            }
        } else if same_text(key, "bore") {
            if value >= 0 {
                self.bore = value;
            }
        } else if same_text(key, "height") {
            if value > 0 {
                self.height = value;
            }
        }
    }

    /// A new spacer of `shape` at these sizes, with no flange, or a fitted
    /// one when it is flanged.
    pub open spec fn spec_spacer(self, shape: Shape) -> Spacer {
        let spacer = Spacer {
            shape,
            outer: self.outer,
            bore: self.bore,
            height: self.height,
            flange: 0,
            flange_height: 0,
        };
        if shape == Shape::Flanged {
            spacer.fitted()
        } else {
            spacer
        }
    }

    /// The numbers of the settings page.
    pub open spec fn spec_fields(self) -> Seq<NumberField> {
        seq![
            NumberField { key: "outer", label: "Outside", value: self.outer },
            NumberField { key: "bore", label: "Bore", value: self.bore },
            NumberField { key: "height", label: "Height", value: self.height },
        ]
    }

    pub fn fields(&self) -> (r: Vec<NumberField>)
        ensures
            r@ == self.spec_fields(),
    {
        let mut v = Vec::new();
        v.push(NumberField { key: "outer", label: "Outside", value: self.outer });
        v.push(NumberField { key: "bore", label: "Bore", value: self.bore });
        v.push(NumberField { key: "height", label: "Height", value: self.height });
        assert(v@ =~= self.spec_fields());
        v
    }
}

/// The sizes that a new spacer starts from stay sizes a spacer can start
/// from, whatever the settings page sets.
pub proof fn lemma_defaults_stay_valid(d: Defaults, key: Seq<char>, value: i64)
    requires
        d.valid(),
    ensures
        d.spec_set(key, value).valid(),
{
}

/// A setting changes only the default its key names, and only to a value
/// a spacer can start from: a positive outside or height, a bore of no
/// negative size. Any other key or value changes nothing.
pub proof fn lemma_setting_sets_the_named_default(d: Defaults, key: Seq<char>, v: i64)
    ensures
        key == "outer"@ && v > 0 ==> d.spec_set(key, v) == (Defaults { outer: v, ..d }),
        key == "bore"@ && v >= 0 ==> d.spec_set(key, v) == (Defaults { bore: v, ..d }),
        key == "height"@ && v > 0 ==> d.spec_set(key, v) == (Defaults { height: v, ..d }),
        key == "outer"@ && v <= 0 ==> d.spec_set(key, v) == d,
        key == "bore"@ && v < 0 ==> d.spec_set(key, v) == d,
        key == "height"@ && v <= 0 ==> d.spec_set(key, v) == d,
        key != "outer"@ && key != "bore"@ && key != "height"@ ==> d.spec_set(key, v) == d,
{
    lemma_length_keys_differ();
}

/// A new spacer has the default sizes and the shape asked for; a flanged
/// one a flange 1.5 times the outside (kept at 0 when the outside is less
/// than 0) and a quarter of the height thick, another none.
pub proof fn lemma_new_spacer_from_the_defaults(d: Defaults, shape: Shape)
    ensures
        d.spec_spacer(shape).shape == shape,
        d.spec_spacer(shape).outer == d.outer,
        d.spec_spacer(shape).bore == d.bore,
        d.spec_spacer(shape).height == d.height,
        shape == Shape::Flanged && d.outer >= 0 ==> d.spec_spacer(shape).flange == saturate(
            wider_flange(d.outer as int),
        ),
        shape == Shape::Flanged && d.outer < 0 ==> d.spec_spacer(shape).flange == 0,
        shape == Shape::Flanged ==> d.spec_spacer(shape).flange_height == fitted_flange_height(
            d.height as int,
        ),
        shape != Shape::Flanged ==> d.spec_spacer(shape).flange == 0
            && d.spec_spacer(shape).flange_height == 0,
{
    let s = Spacer { shape, outer: d.outer, bore: d.bore, height: d.height, flange: 0, flange_height: 0 };
    lemma_fit_flange_fields(s);
}

/// Each number of the settings page shows the default its key names.
pub proof fn lemma_settings_show_the_defaults(d: Defaults)
    ensures
        d.spec_fields().len() == 3,
        d.spec_fields()[0].key == "outer" && d.spec_fields()[0].value == d.outer,
        d.spec_fields()[1].key == "bore" && d.spec_fields()[1].value == d.bore,
        d.spec_fields()[2].key == "height" && d.spec_fields()[2].value == d.height,
{
}

/// A feature as the host has it: its kind, and its data read as a spacer.
#[derive(Clone, Debug)]
pub struct FeatureNode {
    pub kind: String,
    /// `None` when the data does not read as a spacer.
    pub spacer: Option<Spacer>,
}

/// The numbers a script's make command gave, in micrometres, and the shape
/// it named; each one it left out is `None`.
#[derive(Clone, Debug)]
pub struct CommandArgs {
    pub shape: Option<String>,
    pub outer: Option<i64>,
    pub bore: Option<i64>,
    pub height: Option<i64>,
    pub flange: Option<i64>,
    pub flange_height: Option<i64>,
}

/// Something the user did while the bench is active.
#[derive(Clone, Debug)]
pub enum InputEvent {
    /// The active tool changed to `tool`.
    ToolActivated { tool: Option<String> },
    /// A key by name, pressed or let go.
    Key { key: String, down: bool },
    Other,
}

/// What the bench does with an input.
#[derive(Clone, Copy, Debug, PartialEq, Eq, Structural)]
pub enum InputAction {
    /// Make a spacer of this shape on a body of its own and open its task.
    Make(Shape),
    /// Close the task, cancelling it.
    Cancel,
    /// Leave the input to the app.
    Pass,
}

impl InputAction {
    /// Whether the bench used the input.
    pub fn used(self) -> (r: bool)
        ensures
            r == !(self is Pass),
    {
        match self {
            InputAction::Pass => false,
            _ => true,
        }
    }
}

/// What closing the task leaves to do.
#[derive(Clone, Debug, PartialEq, Eq)]
pub enum Closing {
    /// No task was open.
    Idle,
    /// The edits stay, as one undo step.
    Kept,
    /// The task made the feature: it goes.
    Remove { feature: String },
    /// The feature gets back the data it had when the task opened.
    Restore { feature: String, data: Spacer },
}

impl Closing {
    pub open spec fn spec_undo_step(self) -> Option<&'static str> {
        match self {
            Closing::Kept => Some("Edit spacer"),
            _ => None,
        }
    }

    /// The undo step's name, when the task closed keeping its edits.
    pub fn undo_step(&self) -> (r: Option<&'static str>)
        ensures
            r == self.spec_undo_step(),
    {
        match self {
            Closing::Kept => Some("Edit spacer"),
            _ => None,
        }
    }
}

/// The workbench's state.
#[derive(Debug)]
pub struct Spacers {
    /// The spacer whose task is open, with its data when it opened.
    editing: Option<(String, Spacer)>,
    /// The tool just made it: Cancel removes it.
    fresh: bool,
    defaults: Defaults,
}

impl Default for Spacers {
    /// Nothing under edit, and the default sizes.
    fn default() -> (r: Self)
        ensures
            r.spec_editing() is None,
            !r.spec_fresh(),
            r.spec_defaults() == (Defaults { outer: 8000, bore: 3400, height: 10000 }),
    {
        Spacers { editing: None, fresh: false, defaults: Defaults::default() }
    }
}

/// The data a spacer made by the make command has: the shape and numbers
/// given, the defaults' sizes for those left out; a flanged one has the
/// flange given, fitted, and one of another shape none.
pub open spec fn command_data(defaults: Defaults, shape: Shape, args: CommandArgs) -> Spacer {
    let spacer = Spacer {
        shape,
        outer: args.outer.unwrap_or(defaults.outer),
        bore: args.bore.unwrap_or(defaults.bore),
        height: args.height.unwrap_or(defaults.height),
        flange: 0,
        flange_height: 0,
    };
    if shape == Shape::Flanged {
        Spacer {
            flange: args.flange.unwrap_or(0),
            flange_height: args.flange_height.unwrap_or(0),
            ..spacer
        }.fitted()
    } else {
        spacer
    }
}

/// What the make command answers: no command by another id; no shape by a
/// name that names none; the spacer's problem; else the spacer to make.
/// Round when no shape is named.
pub open spec fn spec_command(defaults: Defaults, id: Seq<char>, args: CommandArgs) -> Result<
    Spacer,
    Seq<char>,
> {
    if id != MAKE@ {
        Err("no command `"@ + id + "`"@)
    } else {
        let shape = match args.shape {
            None => Some(Shape::Round),
            Some(name) => shape_named(name@),
        };
        match shape {
            None => Err(
                "`"@ + args.shape.unwrap()@ + "` is not a shape: `round`, `hex`, `square` or `flanged`"@,
            ),
            Some(shape) => {
                let spacer = command_data(defaults, shape, args);
                match spacer.spec_problem() {
                    Some(p) => Err(p.spec_text()@),
                    None => Ok(spacer),
                }
            },
        }
    }
}

/// The make command answers only to its own id, and makes a spacer of the
/// shape named (round when none is), with the numbers given and the
/// default sizes for those left out. A flanged one gets the flange given
/// where it is wider than the spacer, else one 1.5 times the spacer's own
/// outside; the thickness given where it is between 0 and the spacer's
/// own height, else a quarter of that height. Another shape gets no flange,
/// whatever was given. What it makes can be printed.
pub proof fn lemma_make_command_makes_what_it_is_given(d: Defaults, id: Seq<char>, args: CommandArgs)
    requires
        spec_command(d, id, args) is Ok,
    ensures
        ({
            let s = spec_command(d, id, args)->Ok_0;
            let flange = args.flange.unwrap_or(0);
            let flange_height = args.flange_height.unwrap_or(0);
            &&& id == MAKE@
            &&& args.shape is None ==> s.shape == Shape::Round
            &&& args.shape matches Some(name) ==> shape_named(name@) == Some(s.shape)
            &&& s.outer == args.outer.unwrap_or(d.outer)
            &&& s.bore == args.bore.unwrap_or(d.bore)
            &&& s.height == args.height.unwrap_or(d.height)
            &&& s.shape == Shape::Flanged && flange > s.outer ==> s.flange == flange
            &&& s.shape == Shape::Flanged && flange <= s.outer ==> s.flange == saturate(
                wider_flange(s.outer as int),
            )
            &&& s.shape == Shape::Flanged && 0 < flange_height < s.height ==> s.flange_height
                == flange_height
            &&& s.shape == Shape::Flanged && !(0 < flange_height < s.height) ==> s.flange_height
                == fitted_flange_height(s.height as int)
            &&& s.shape != Shape::Flanged ==> s.flange == 0 && s.flange_height == 0
            &&& s.printable()
        }),
{
    let shape = match args.shape {
        None => Shape::Round,
        Some(name) => shape_named(name@).unwrap(),
    };
    let base = Spacer {
        shape,
        outer: args.outer.unwrap_or(d.outer),
        bore: args.bore.unwrap_or(d.bore),
        height: args.height.unwrap_or(d.height),
        flange: args.flange.unwrap_or(0),
        flange_height: args.flange_height.unwrap_or(0),
    };
    lemma_fit_flange_fields(base);
}

/// The text of the result of a command, as `spec_command` states it.
pub open spec fn command_result_is(r: Result<Spacer, String>, expected: Result<Spacer, Seq<char>>) -> bool {
    match (r, expected) {
        (Ok(a), Ok(b)) => a == b,
        (Err(a), Err(b)) => a@ == b,
        _ => false,
    }
}

impl Spacers {
    /// The spacer whose task is open, with its data when it opened.
    pub closed spec fn spec_editing(self) -> Option<(String, Spacer)> {
        self.editing
    }

    /// Whether a tool just made the spacer under edit.
    pub closed spec fn spec_fresh(self) -> bool {
        self.fresh
    }

    /// The sizes new spacers start from.
    pub closed spec fn spec_defaults(self) -> Defaults {
        self.defaults
    }

    /// The feature whose task is open, and its data when it opened.
    pub fn editing(&self) -> (r: Option<(String, Spacer)>)
        ensures
            r == self.spec_editing(),
    {
        match &self.editing {
            Some((id, data)) => Some((id.clone(), *data)),
            None => None,
        }
    }

    pub fn fresh(&self) -> (r: bool)
        ensures
            r == self.spec_fresh(),
    {
        self.fresh
    }

    pub fn defaults(&self) -> (r: Defaults)
        ensures
            r == self.spec_defaults(),
    {
        self.defaults
    }

    /// Puts in the defaults the app kept.
    pub fn replace_defaults(&mut self, defaults: Defaults)
        ensures
            final(self).spec_defaults() == defaults,
            final(self).spec_editing() == old(self).spec_editing(),
            final(self).spec_fresh() == old(self).spec_fresh(),
    {
        self.defaults = defaults;
    }

    /// Forgets the task, whose feature is gone: nothing is left to undo.
    pub fn drop_task(&mut self)
        ensures
            final(self).spec_editing() is None,
            final(self).spec_fresh() == old(self).spec_fresh(),
            final(self).spec_defaults() == old(self).spec_defaults(),
    {
        self.editing = None;
    }

    /// A change on the settings page: a number sets the default it names,
    /// when the value is one a spacer can start from.
    pub fn change_setting(&mut self, change: &PanelChange)
        ensures
            final(self).spec_editing() == old(self).spec_editing(),
            final(self).spec_fresh() == old(self).spec_fresh(),
            final(self).spec_defaults() == match *change {
                PanelChange::Number { id, value } => old(self).spec_defaults().spec_set(id@, value),
                _ => old(self).spec_defaults(),
            },
    {
        if let PanelChange::Number { id, value } = change {
            self.defaults.set(id.as_str(), *value);
        }
    }

    /// A new spacer of `shape` from the defaults.
    pub fn new_spacer(&self, shape: Shape) -> (r: Spacer)
        ensures
            r == self.spec_defaults().spec_spacer(shape),
            r.flange_only_when_flanged(),
    {
        let mut spacer = Spacer {
            shape,
            outer: self.defaults.outer,
            bore: self.defaults.bore,
            height: self.defaults.height,
            flange: 0,
            flange_height: 0,
        };
        if shape == Shape::Flanged {
            spacer.fit_flange();
        }
        spacer
    }

    /// Opens the task of the feature `id`, which the host has as `node`,
    /// when it is a spacer whose data reads; `fresh` when a tool just made
    /// it.
    pub fn open(&mut self, id: &str, node: Option<FeatureNode>, fresh: bool)
        ensures
            final(self).spec_defaults() == old(self).spec_defaults(),
            match node {
                Some(FeatureNode { kind, spacer: Some(spacer) }) if kind@ == KIND@ => {
                    &&& final(self).spec_editing() matches Some((opened, data))
                    &&& opened@ == id@
                    &&& data == spacer
                    &&& final(self).spec_fresh() == fresh
                },
                _ => {
                    &&& final(self).spec_editing() == old(self).spec_editing()
                    &&& final(self).spec_fresh() == old(self).spec_fresh()
                },
            },
    {
        if let Some(node) = node {
            if same_text(node.kind.as_str(), KIND) {
                if let Some(spacer) = node.spacer {
                    self.editing = Some((String::from_str(id), spacer));
                    self.fresh = fresh;
                }
            }
        }
    }

    /// Closes the task, keeping its edits when `accept`; what is left to do
    /// to the feature. Cancelling removes a spacer a tool just made, and
    /// gives another back the data it had when its task opened.
    pub fn close_task(&mut self, accept: bool) -> (r: Closing)
        ensures
            final(self).spec_editing() is None,
            final(self).spec_fresh() == old(self).spec_fresh(),
            final(self).spec_defaults() == old(self).spec_defaults(),
            r == match old(self).spec_editing() {
                None => Closing::Idle,
                Some((feature, data)) => if accept {
                    Closing::Kept
                } else if old(self).spec_fresh() {
                    Closing::Remove { feature }
                } else {
                    Closing::Restore { feature, data }
                },
            },
    {
        let editing = self.editing.take();
        match editing {
            None => Closing::Idle,
            Some((feature, data)) => {
                if accept {
                    Closing::Kept
                } else if self.fresh {
                    Closing::Remove { feature }
                } else {
                    Closing::Restore { feature, data }
                }
            },
        }
    }

    /// What to do with an input: a spacer tool makes its shape; Escape
    /// cancels the task when one is open; anything else passes.
    pub fn input_action(&self, event: &InputEvent) -> (r: InputAction)
        ensures
            r == match *event {
                InputEvent::ToolActivated { tool: Some(tool) } => match shape_of_tool(tool@) {
                    Some(shape) => InputAction::Make(shape),
                    None => InputAction::Pass,
                },
                InputEvent::Key { key, down } => if down && key@ == "Escape"@
                    && self.spec_editing() is Some {
                    InputAction::Cancel
                } else {
                    InputAction::Pass
                },
                _ => InputAction::Pass,
            },
    {
        match event {
            InputEvent::ToolActivated { tool: Some(tool) } => match Shape::for_tool(tool.as_str()) {
                Some(shape) => InputAction::Make(shape),
                None => InputAction::Pass,
            },
            InputEvent::Key { key, down } => {
                if *down && same_text(key.as_str(), "Escape") && self.editing.is_some() {
                    InputAction::Cancel
                } else {
                    InputAction::Pass
                }
            },
            _ => InputAction::Pass,
        }
    }

    /// The spacer the make command `id` asks for with `args`, or what is
    /// wrong.
    pub fn command_spacer(&self, id: &str, args: &CommandArgs) -> (r: Result<Spacer, String>)
        ensures
            command_result_is(r, spec_command(self.spec_defaults(), id@, *args)),
            r matches Ok(spacer) ==> spacer.printable() && spacer.flange_only_when_flanged(),
    {
        if !same_text(id, MAKE) {
            let mut message = String::from_str("no command `");
            message.append(id);
            message.append("`");
            return Err(message);
        }
        let shape = match &args.shape {
            None => Shape::Round,
            Some(name) => match Shape::named(name.as_str()) {
                Some(shape) => shape,
                None => {
                    let mut message = String::from_str("`");
                    message.append(name.as_str());
                    message.append("` is not a shape: `round`, `hex`, `square` or `flanged`");
                    return Err(message);
                },
            },
        };
        let mut spacer = Spacer {
            shape,
            outer: match args.outer {
                Some(v) => v,
                None => self.defaults.outer,
            },
            bore: match args.bore {
                Some(v) => v,
                None => self.defaults.bore,
            },
            height: match args.height {
                Some(v) => v,
                None => self.defaults.height,
            },
            flange: 0,
            flange_height: 0,
        };
        if shape == Shape::Flanged {
            spacer.flange = match args.flange {
                Some(v) => v,
                None => 0,
            };
            spacer.flange_height = match args.flange_height {
                Some(v) => v,
                None => 0,
            };
            spacer.fit_flange();
        }
        match spacer.problem() {
            Some(problem) => Err(String::from_str(problem)),
            None => Ok(spacer),
        }
    }
}

/// Whether a feature of kind `kind` is a spacer, whose tree menu offers
/// to edit it.
pub fn is_spacer_kind(kind: &str) -> (r: bool)
    ensures
        r == (kind@ == KIND@),
{
    same_text(kind, KIND)
}

/// Whether the menu entry `id` is the one that edits a spacer.
pub fn is_edit_command(id: &str) -> (r: bool)
    ensures
        r == (id@ == EDIT@),
{
    same_text(id, EDIT)
}

/// The icon of a feature whose data reads as `spacer`: its shape's, or the
/// round one's when it does not read.
pub fn feature_icon(spacer: Option<Spacer>) -> (r: &'static str)
    ensures
        r == match spacer {
            Some(s) => s.shape.spec_icon(),
            None => Shape::Round.spec_icon(),
        },
{
    match spacer {
        Some(s) => s.shape.icon(),
        None => Shape::Round.icon(),
    }
}

/// The tree's label for a spacer feature: `Spacer` and the spacer's label,
/// or `Spacer` alone when its data does not read.
pub fn kind_label(label: Option<&str>) -> (r: String)
    ensures
        r@ == match label {
            Some(l) => "Spacer "@ + l@,
            None => "Spacer"@,
        },
{
    match label {
        Some(l) => {
            let mut text = String::from_str("Spacer ");
            text.append(l);
            text
        },
        None => String::from_str("Spacer"),
    }
}

} // verus!
