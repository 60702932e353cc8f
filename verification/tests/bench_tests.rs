use spacers::bench::{feature_icon, is_edit_command, is_spacer_kind, kind_label, KIND, MAKE};
use spacers::{
    Closing, CommandArgs, Defaults, FeatureNode, InputAction, InputEvent, PanelChange, Shape,
    Spacer, Spacers,
};

fn no_args() -> CommandArgs {
    CommandArgs {
        shape: None,
        outer: None,
        bore: None,
        height: None,
        flange: None,
        flange_height: None,
    }
}

fn node(spacer: Option<Spacer>) -> Option<FeatureNode> {
    Some(FeatureNode {
        kind: KIND.to_string(),
        spacer,
    })
}

#[test]
fn new_spacers_start_from_the_defaults() {
    let bench = Spacers::default();
    assert_eq!(
        bench.defaults(),
        Defaults {
            outer: 8000,
            bore: 3400,
            height: 10000
        }
    );
    let round = bench.new_spacer(Shape::Round);
    assert_eq!((round.outer, round.bore, round.height), (8000, 3400, 10000));
    assert_eq!((round.flange, round.flange_height), (0, 0));
    let flanged = bench.new_spacer(Shape::Flanged);
    assert_eq!((flanged.flange, flanged.flange_height), (12000, 2000));
    assert_eq!(flanged.problem(), None);
}

#[test]
fn the_settings_take_only_sizes_a_spacer_can_start_from() {
    let mut bench = Spacers::default();
    bench.change_setting(&PanelChange::Number { id: "outer".to_string(), value: 12000 });
    assert_eq!(bench.defaults().outer, 12000);
    bench.change_setting(&PanelChange::Number { id: "outer".to_string(), value: 0 });
    assert_eq!(bench.defaults().outer, 12000);
    bench.change_setting(&PanelChange::Number { id: "bore".to_string(), value: 0 });
    assert_eq!(bench.defaults().bore, 0);
    bench.change_setting(&PanelChange::Number { id: "bore".to_string(), value: -1 });
    assert_eq!(bench.defaults().bore, 0);
    bench.change_setting(&PanelChange::Number { id: "height".to_string(), value: -4 });
    assert_eq!(bench.defaults().height, 10000);
    bench.change_setting(&PanelChange::Number { id: "flange".to_string(), value: 4 });
    bench.change_setting(&PanelChange::Choice { index: 1 });
    assert_eq!(
        bench.defaults(),
        Defaults {
            outer: 12000,
            bore: 0,
            height: 10000
        }
    );
    let fields = bench.defaults().fields();
    assert_eq!(fields.len(), 3);
    assert_eq!((fields[0].key, fields[0].label, fields[0].value), ("outer", "Outside", 12000));
    assert_eq!(fields[2].label, "Height");
}

#[test]
fn the_make_command_makes_a_spacer_from_its_numbers_and_the_defaults() {
    let bench = Spacers::default();
    let made = bench.command_spacer(MAKE, &no_args()).expect("a spacer");
    assert_eq!(made, bench.new_spacer(Shape::Round));
    let args = CommandArgs {
        shape: Some("HEX".to_string()),
        outer: Some(10000),
        height: Some(5000),
        ..no_args()
    };
    let hex = bench.command_spacer(MAKE, &args).expect("a hex");
    assert_eq!((hex.shape, hex.outer, hex.bore, hex.height), (Shape::Hex, 10000, 3400, 5000));
    let args = CommandArgs {
        shape: Some("flanged".to_string()),
        ..no_args()
    };
    let flanged = bench.command_spacer(MAKE, &args).expect("a flanged spacer");
    assert_eq!((flanged.flange, flanged.flange_height), (12000, 2000));
    let args = CommandArgs {
        shape: Some("flanged".to_string()),
        flange: Some(20000),
        flange_height: Some(3000),
        ..no_args()
    };
    let given = bench.command_spacer(MAKE, &args).expect("a flanged spacer");
    assert_eq!((given.flange, given.flange_height), (20000, 3000));
    let args = CommandArgs {
        shape: Some("square".to_string()),
        flange: Some(20000),
        flange_height: Some(3000),
        ..no_args()
    };
    let square = bench.command_spacer(MAKE, &args).expect("a square");
    assert_eq!((square.shape, square.flange, square.flange_height), (Shape::Square, 0, 0));
}

#[test]
fn the_make_command_says_what_is_wrong() {
    let bench = Spacers::default();
    assert_eq!(
        bench.command_spacer("example.spacers.unmake", &no_args()),
        Err("no command `example.spacers.unmake`".to_string())
    );
    let args = CommandArgs {
        shape: Some("oval".to_string()),
        ..no_args()
    };
    assert_eq!(
        bench.command_spacer(MAKE, &args),
        Err("`oval` is not a shape: `round`, `hex`, `square` or `flanged`".to_string())
    );
    let args = CommandArgs {
        bore: Some(7500),
        ..no_args()
    };
    assert_eq!(
        bench.command_spacer(MAKE, &args),
        Err("The wall around the bore is thinner than 0.4 mm.".to_string())
    );
    let args = CommandArgs {
        shape: Some("flanged".to_string()),
        height: Some(300),
        ..no_args()
    };
    assert_eq!(
        bench.command_spacer(MAKE, &args),
        Err("The flange must be thinner than the spacer is tall.".to_string())
    );
}

#[test]
fn a_task_opens_on_a_spacer_whose_data_reads() {
    let mut bench = Spacers::default();
    let round = bench.new_spacer(Shape::Round);
    bench.open("f1", Some(FeatureNode { kind: "other.kind".to_string(), spacer: Some(round) }), true);
    assert!(bench.editing().is_none());
    bench.open("f1", node(None), true);
    assert!(bench.editing().is_none());
    bench.open("f1", None, true);
    assert!(bench.editing().is_none());
    bench.open("f1", node(Some(round)), true);
    assert_eq!(bench.editing(), Some(("f1".to_string(), round)));
    assert!(bench.fresh());
}

#[test]
fn closing_a_task_keeps_removes_or_restores() {
    let mut bench = Spacers::default();
    assert_eq!(bench.close_task(true), Closing::Idle);
    assert_eq!(Closing::Idle.undo_step(), None);
    let round = bench.new_spacer(Shape::Round);
    bench.open("f1", node(Some(round)), true);
    let kept = bench.close_task(true);
    assert_eq!(kept, Closing::Kept);
    assert_eq!(kept.undo_step(), Some("Edit spacer"));
    assert!(bench.editing().is_none());
    bench.open("f1", node(Some(round)), true);
    assert_eq!(bench.close_task(false), Closing::Remove { feature: "f1".to_string() });
    bench.open("f2", node(Some(round)), false);
    let restored = bench.close_task(false);
    assert_eq!(restored, Closing::Restore { feature: "f2".to_string(), data: round });
    assert_eq!(restored.undo_step(), None);
    assert!(bench.editing().is_none());
}

#[test]
fn a_task_whose_feature_is_gone_is_dropped() {
    let mut bench = Spacers::default();
    let round = bench.new_spacer(Shape::Round);
    bench.open("f1", node(Some(round)), true);
    assert!(bench.editing().is_some());
    bench.drop_task();
    assert!(bench.editing().is_none());
    assert!(bench.fresh());
    assert_eq!(bench.close_task(false), Closing::Idle);
}

#[test]
fn kept_settings_come_back() {
    let mut bench = Spacers::default();
    let kept = Defaults {
        outer: 6000,
        bore: 2000,
        height: 4000,
    };
    bench.replace_defaults(kept);
    assert_eq!(bench.defaults(), kept);
    assert_eq!(bench.new_spacer(Shape::Hex).outer, 6000);
}

#[test]
fn a_tool_makes_its_shape_and_escape_cancels() {
    let mut bench = Spacers::default();
    let tool = |t: &str| InputEvent::ToolActivated { tool: Some(t.to_string()) };
    assert_eq!(bench.input_action(&tool("example.spacers.square")), InputAction::Make(Shape::Square));
    assert_eq!(bench.input_action(&tool("other.tool")), InputAction::Pass);
    assert_eq!(bench.input_action(&InputEvent::ToolActivated { tool: None }), InputAction::Pass);
    let escape = InputEvent::Key { key: "Escape".to_string(), down: true };
    assert_eq!(bench.input_action(&escape), InputAction::Pass);
    let round = bench.new_spacer(Shape::Round);
    bench.open("f1", node(Some(round)), true);
    assert_eq!(bench.input_action(&escape), InputAction::Cancel);
    assert!(InputAction::Cancel.used());
    assert!(!InputAction::Pass.used());
    let up = InputEvent::Key { key: "Escape".to_string(), down: false };
    assert_eq!(bench.input_action(&up), InputAction::Pass);
    assert_eq!(bench.input_action(&InputEvent::Other), InputAction::Pass);
}

#[test]
fn the_tree_shows_and_edits_spacers() {
    let round = Spacers::default().new_spacer(Shape::Round);
    assert_eq!(kind_label(Some("Ø8 × 10")), "Spacer Ø8 × 10");
    assert_eq!(kind_label(None), "Spacer");
    assert_eq!(feature_icon(None), "spacer");
    let hex = Spacer { shape: Shape::Hex, ..round };
    assert_eq!(feature_icon(Some(hex)), "spacer-hex");
    assert!(is_spacer_kind("example.spacers.spacer"));
    assert!(!is_spacer_kind("example.spacers"));
    assert!(is_edit_command("example.spacers.edit"));
    assert!(!is_edit_command("example.spacers.make"));
}
