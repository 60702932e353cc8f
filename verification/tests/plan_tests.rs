use spacers::{plan_body, Feature, Plan, Role, Shape, Spacer};

fn spacer(shape: Shape) -> Spacer {
    let mut s = Spacer {
        shape,
        outer: 8000,
        bore: 3400,
        height: 10000,
        flange: 0,
        flange_height: 0,
    };
    if shape == Shape::Flanged {
        s.fit_flange();
    }
    s
}

fn feature(id: &str, spacer: Option<Spacer>) -> Feature {
    Feature {
        id: id.to_string(),
        spacer,
    }
}

#[test]
fn a_body_without_spacers_has_nothing_to_build() {
    assert!(matches!(plan_body(&Vec::new()), Plan::Empty));
}

#[test]
fn a_body_builds_each_spacer_in_order_from_one_solid() {
    let features = vec![
        feature("a", Some(spacer(Shape::Flanged))),
        feature("b", Some(spacer(Shape::Hex))),
    ];
    match plan_body(&features) {
        Plan::Ops { ops, op_features } => {
            assert_eq!(ops.len(), 3);
            assert_eq!(op_features, ["a", "a", "b"]);
            let roles: Vec<Role> = ops.iter().map(|op| op.role).collect();
            assert_eq!(roles, [Role::NewSolid, Role::Fuse, Role::Fuse]);
            assert_eq!(ops[2], spacer(Shape::Hex).ops(false)[0]);
        }
        other => panic!("a plan of ops, not {other:?}"),
    }
}

#[test]
fn the_first_spacer_that_fails_stops_the_plan() {
    let thin = Spacer {
        bore: 7500,
        ..spacer(Shape::Round)
    };
    let features = vec![
        feature("a", Some(spacer(Shape::Round))),
        feature("b", Some(thin)),
        feature("c", None),
    ];
    match plan_body(&features) {
        Plan::Error { feature, message } => {
            assert_eq!(feature, "b");
            assert_eq!(message, "The wall around the bore is thinner than 0.4 mm.");
        }
        other => panic!("an error, not {other:?}"),
    }
    let features = vec![feature("x", None), feature("y", Some(thin))];
    match plan_body(&features) {
        Plan::Error { feature, message } => {
            assert_eq!(feature, "x");
            assert_eq!(message, "The spacer's data does not read.");
        }
        other => panic!("an error, not {other:?}"),
    }
}
