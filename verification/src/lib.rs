//! Spacers: round, hex, square and flanged spacers for printCAD.
//!
//! A spacer is a prism, round, hex or square, or round with a flange at its
//! base, with a bore through it. Lengths are whole micrometres.
//!
//! - `text`: comparing names, and numbers without trailing zeros;
//! - `shape`: the shapes, with their names, icons, tools and keys;
//! - `spacer`: a spacer's data, what is wrong with it, its flange, and the
//!   prisms that build it;
//! - `plan`: a body's rebuild plan from its spacers;
//! - `bench`: the workbench's state and decisions.
pub mod bench;
pub mod plan;
pub mod shape;
pub mod spacer;
pub mod text;

pub use bench::{Closing, CommandArgs, Defaults, FeatureNode, InputAction, InputEvent, Spacers};
pub use plan::{Feature, Plan, plan_body};
pub use shape::Shape;
pub use spacer::{NumberField, Outline, PanelChange, Prism, Problem, Role, Spacer};
pub use text::trim_zeros;
