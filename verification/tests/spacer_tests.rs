use spacers::spacer::{length_parameters, MIN_WALLS};
use spacers::{Outline, PanelChange, Problem, Role, Shape, Spacer};

fn spacer(shape: Shape) -> Spacer {
    let mut spacer = Spacer {
        shape,
        outer: 8000,
        bore: 3400,
        height: 10000,
        flange: 0,
        flange_height: 0,
    };
    if shape == Shape::Flanged {
        spacer.fit_flange();
    }
    spacer
}

#[test]
fn a_square_is_as_wide_as_its_side() {
    let outline = spacer(Shape::Square).outline();
    assert_eq!(outline.corners(), 4);
    assert_eq!(outline, Outline::Square { side: 8000 });
}

#[test]
fn a_flanged_spacer_builds_its_flange_then_its_body() {
    let flanged = spacer(Shape::Flanged);
    assert_eq!(flanged.problem(), None);
    assert_eq!((flanged.flange, flanged.flange_height), (12000, 2000));
    let ops = flanged.ops(true);
    assert_eq!(ops.len(), 2);
    let roles: Vec<Role> = ops.iter().map(|op| op.role).collect();
    assert_eq!(roles, [Role::NewSolid, Role::Fuse]);
    assert!(
        Spacer {
            flange: 7000,
            ..flanged
        }
        .problem()
        .is_some(),
        "narrower than the spacer"
    );
    assert!(
        Spacer {
            flange_height: 10000,
            ..flanged
        }
        .problem()
        .is_some(),
        "as tall as the spacer"
    );
}

#[test]
fn a_spacer_of_another_shape_reads_no_flange() {
    let hex = Spacer {
        shape: Shape::Hex,
        outer: 8000,
        bore: 3400,
        height: 10000,
        flange: 12000,
        flange_height: 2000,
    };
    let read = hex.settled();
    assert_eq!((read.flange, read.flange_height), (0, 0));
    assert_eq!((read.shape, read.outer, read.bore, read.height), (Shape::Hex, 8000, 3400, 10000));
    assert_eq!(read.problem(), None);
    let flanged = spacer(Shape::Flanged);
    assert_eq!(flanged.settled(), flanged);
}

#[test]
fn a_hex_is_as_wide_across_its_flats_as_asked() {
    let outline = spacer(Shape::Hex).outline();
    assert_eq!(outline.corners(), 6);
    assert_eq!(outline, Outline::Hex { across_flats: 8000 });
}

#[test]
fn a_spacer_needs_a_wall_a_nozzle_can_print() {
    assert_eq!(spacer(Shape::Round).problem(), None);
    let thin = Spacer {
        bore: 7500,
        ..spacer(Shape::Round)
    };
    assert!(thin.problem().is_some());
    let flat = Spacer {
        height: 0,
        ..spacer(Shape::Hex)
    };
    assert!(flat.problem().is_some());
}

#[test]
fn a_round_spacer_is_labelled_by_its_sizes() {
    assert_eq!(spacer(Shape::Round).label("8.00", "0.00", "10.00"), "Ø8 × 10");
}

#[test]
fn each_problem_has_its_message() {
    let round = spacer(Shape::Round);
    assert_eq!(
        Spacer { outer: 0, ..round }.problem(),
        Some("The outside and the height must be more than 0.")
    );
    assert_eq!(
        Spacer { height: -1, ..round }.problem(),
        Some(Problem::NotPositive.text())
    );
    assert_eq!(
        Spacer { bore: -1, ..round }.problem(),
        Some("The bore cannot be less than 0.")
    );
    assert_eq!(
        Spacer { bore: 7201, ..round }.problem(),
        Some("The wall around the bore is thinner than 0.4 mm.")
    );
    let flanged = spacer(Shape::Flanged);
    assert_eq!(
        Spacer { flange: 8000, ..flanged }.problem(),
        Some("The flange must be wider than the spacer.")
    );
    assert_eq!(
        Spacer { flange_height: 0, ..flanged }.problem(),
        Some("The flange must be thinner than the spacer is tall.")
    );
}

#[test]
fn a_wall_of_exactly_two_nozzles_prints() {
    let round = spacer(Shape::Round);
    assert_eq!(Spacer { bore: 8000 - MIN_WALLS, ..round }.problem(), None);
    assert!(Spacer { bore: 8000 - MIN_WALLS + 1, ..round }.problem().is_some());
    assert_eq!(Spacer { bore: 0, ..round }.problem(), None);
}

#[test]
fn the_outside_is_checked_before_the_bore() {
    let s = Spacer {
        shape: Shape::Square,
        outer: -5,
        bore: -5,
        height: 1000,
        flange: 0,
        flange_height: 0,
    };
    assert_eq!(s.problem(), Some(Problem::NotPositive.text()));
}

#[test]
fn a_flange_of_another_shape_does_not_matter() {
    let hex = Spacer {
        flange: -3,
        flange_height: 99999,
        ..spacer(Shape::Hex)
    };
    assert_eq!(hex.problem(), None);
}

#[test]
fn a_fitted_flange_is_one_and_a_half_times_as_wide_to_the_hundredth() {
    let mut s = Spacer {
        shape: Shape::Flanged,
        outer: 8333,
        bore: 0,
        height: 6000,
        flange: 0,
        flange_height: 0,
    };
    s.fit_flange();
    // 12.4995 mm rounds to 12.50 mm; 6 mm / 4 = 1.5 mm.
    assert_eq!((s.flange, s.flange_height), (12500, 1500));
    let mut tiny = Spacer { outer: 1000, height: 1000, ..s };
    tiny.flange = 0;
    tiny.flange_height = 0;
    tiny.fit_flange();
    assert_eq!((tiny.flange, tiny.flange_height), (1500, 400));
    let mut tall = Spacer { height: 50000, flange_height: 60000, ..s };
    tall.fit_flange();
    assert_eq!(tall.flange_height, 2000);
}

#[test]
fn a_flange_that_fits_stays_and_fitting_twice_changes_nothing() {
    let mut s = Spacer {
        shape: Shape::Flanged,
        outer: 8000,
        bore: 3000,
        height: 10000,
        flange: 20000,
        flange_height: 3000,
    };
    let before = s;
    s.fit_flange();
    assert_eq!(s, before);
    let mut other = Spacer { flange: 1, flange_height: 0, ..before };
    other.fit_flange();
    let once = other;
    other.fit_flange();
    assert_eq!(other, once);
}

#[test]
fn the_largest_outside_saturates_its_flange() {
    let mut s = Spacer {
        shape: Shape::Flanged,
        outer: i64::MAX,
        bore: 0,
        height: 10000,
        flange: 0,
        flange_height: 0,
    };
    s.fit_flange();
    assert_eq!(s.flange, i64::MAX);
    let mut n = Spacer { outer: -8000, flange: -20000, ..s };
    n.fit_flange();
    assert_eq!(n.flange, -12000);
}

#[test]
fn a_round_outline_is_a_circle_and_a_bore_goes_through_each_prism() {
    let round = spacer(Shape::Round);
    assert_eq!(round.outline(), Outline::Circle { diameter: 8000 });
    assert_eq!(round.outline().corners(), 0);
    let ops = round.ops(false);
    assert_eq!(ops.len(), 1);
    assert_eq!(ops[0].role, Role::Fuse);
    assert_eq!(ops[0].bore, Some(3400));
    assert_eq!(ops[0].height, 10000);
    let solid = Spacer { bore: 0, ..round };
    assert_eq!(solid.ops(true)[0].bore, None);
    assert_eq!(solid.ops(true)[0].role, Role::NewSolid);
    let flanged = spacer(Shape::Flanged).ops(false);
    assert_eq!(flanged[0].outline, Outline::Circle { diameter: 12000 });
    assert_eq!(flanged[0].height, 2000);
    assert_eq!(flanged[0].role, Role::Fuse);
    assert_eq!(flanged[1].outline, Outline::Circle { diameter: 8000 });
}

#[test]
fn labels_show_the_shape_and_sizes_in_millimetres() {
    assert_eq!(spacer(Shape::Hex).label("8.00", "0.00", "10.00"), "⬡8 × 10");
    assert_eq!(spacer(Shape::Square).label("8.00", "0.00", "10.00"), "□8 × 10");
    assert_eq!(spacer(Shape::Flanged).label("8.00", "12.00", "10.00"), "Ø8/12 × 10");
    assert_eq!(spacer(Shape::Round).label("3.45", "12.00", "12.35"), "Ø3.45 × 12.35");
    assert_eq!(spacer(Shape::Round).label("-0.00", "0.00", "0.50"), "Ø-0 × 0.5");
}

#[test]
fn a_length_is_set_by_its_key() {
    let mut s = spacer(Shape::Round);
    assert!(s.set_length("bore", 2000));
    assert_eq!(s.bore, 2000);
    let before = s;
    assert!(!s.set_length("Bore", 1));
    assert_eq!(s, before);
    assert!(!s.set_length("flange_height", 700));
    assert!(!s.set_length("flange", 9000));
    assert_eq!(s, before);
    let mut f = spacer(Shape::Flanged);
    assert!(f.set_length("flange_height", 700));
    assert_eq!(f.flange_height, 700);
}

#[test]
fn the_task_panel_edits_the_spacer() {
    let round = spacer(Shape::Round);
    let flanged = round.changed(&PanelChange::Choice { index: 3 }).expect("a shape");
    assert_eq!(flanged.shape, Shape::Flanged);
    assert_eq!((flanged.flange, flanged.flange_height), (12000, 2000));
    let past_the_end = flanged.changed(&PanelChange::Choice { index: 9 }).expect("a shape");
    assert_eq!(past_the_end.shape, Shape::Round);
    assert_eq!((past_the_end.flange, past_the_end.flange_height), (0, 0));
    let hex = flanged.changed(&PanelChange::Choice { index: 1 }).expect("a shape");
    assert_eq!(
        hex,
        Spacer {
            shape: Shape::Hex,
            flange: 0,
            flange_height: 0,
            ..flanged
        }
    );
    let again = hex.changed(&PanelChange::Choice { index: 3 }).expect("a shape");
    assert_eq!((again.flange, again.flange_height), (12000, 2000));
    assert_eq!(
        hex.changed(&PanelChange::Number { id: "flange".to_string(), value: 9000 }),
        None
    );
    let wider = flanged
        .changed(&PanelChange::Number { id: "flange".to_string(), value: 15000 })
        .expect("a length");
    assert_eq!(wider.flange, 15000);
    let taller = round
        .changed(&PanelChange::Number { id: "height".to_string(), value: 20000 })
        .expect("a length");
    assert_eq!(taller.height, 20000);
    assert_eq!(
        round.changed(&PanelChange::Number { id: "shape".to_string(), value: 1 }),
        None
    );
    assert_eq!(round.changed(&PanelChange::Other), None);
}

#[test]
fn the_task_panel_shows_the_flange_of_a_flanged_spacer() {
    let numbers = spacer(Shape::Hex).task_numbers();
    let keys: Vec<&str> = numbers.iter().map(|n| n.key).collect();
    assert_eq!(keys, ["outer", "bore", "height"]);
    assert_eq!(numbers[0].label, "Across flats");
    assert_eq!(numbers[2].value, 10000);
    let numbers = spacer(Shape::Flanged).task_numbers();
    let labels: Vec<&str> = numbers.iter().map(|n| n.label).collect();
    assert_eq!(
        labels,
        ["Diameter", "Bore", "Height", "Flange diameter", "Flange thickness"]
    );
    assert_eq!(numbers[3].value, 12000);
    assert_eq!(spacer(Shape::Square).task_numbers()[0].label, "Side");
}

#[test]
fn the_task_panel_offers_the_shapes_then_the_numbers_then_the_problem() {
    let panel = spacer(Shape::Square).task_panel();
    assert_eq!(panel.options, ["Round", "Hex", "Square", "Flanged"]);
    assert_eq!(panel.selected, 2);
    assert_eq!(panel.numbers.len(), 3);
    assert_eq!(panel.problem, None);
    let thin = Spacer { bore: 7500, ..spacer(Shape::Flanged) };
    let panel = thin.task_panel();
    assert_eq!(panel.selected, 3);
    assert_eq!(panel.numbers.len(), 5);
    assert_eq!(panel.problem, Some("The wall around the bore is thinner than 0.4 mm."));
}

#[test]
fn formulas_reach_a_flange_only_on_a_flanged_spacer() {
    assert_eq!(
        length_parameters(Some(spacer(Shape::Round))),
        [("outer", "Outside"), ("bore", "Bore"), ("height", "Height")]
    );
    assert_eq!(length_parameters(None).len(), 3);
    assert_eq!(
        length_parameters(Some(spacer(Shape::Flanged)))[4],
        ("flange_height", "Flange thickness")
    );
}
