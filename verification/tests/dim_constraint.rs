//! The dimensional constraint commands.

use ocs_plugin_host::command::{CmdResult, ConstraintKind, LineEnd, ParametricRef, Part};
use ocs_plugin_host::dim_constraint::{
    DimConstraintAxis, DimConstraintCommand, DimConstraintMenuCommand, EndDistances, PickGeometry,
    PickedEntity, PickedKind, Reading, Step, Survey,
};
use ocs_plugin_host::geometry::{Handle, Vector3};
use ocs_plugin_host::scalar::Scalar;

fn num(value: f64) -> Scalar {
    Scalar { bits: value.to_bits() }
}

fn at(place: [f64; 3]) -> Vector3 {
    Vector3 {
        x: num(place[0]),
        y: num(place[1]),
        z: num(place[2]),
        length: num(place[0].hypot(place[1]).hypot(place[2])),
    }
}

fn reading(value: f64) -> Reading {
    Reading { text: format!("{value:.4}"), expression: format!("{value}") }
}

/// What an engine measures between two points for a place of the dimension line:
/// a line above or below the pair runs horizontally, one beside it vertically.
fn survey(first: [f64; 3], second: [f64; 3], place: [f64; 3]) -> Survey {
    let (dx, dy) = (second[0] - first[0], second[1] - first[1]);
    let length = dx.hypot(dy);
    let inside_x = place[0] >= first[0].min(second[0]) && place[0] <= first[0].max(second[0]);
    Survey {
        runs_horizontally: inside_x,
        aligned_axis: at([dx / length, dy / length, 0.0]),
        across: reading(dx.abs()),
        up: reading(dy.abs()),
        between: reading(length),
        directed: reading(3.0),
    }
}

fn nowhere() -> PickGeometry {
    PickGeometry { segment: None, direction: None, distances: near_first() }
}

fn near_first() -> EndDistances {
    EndDistances { first: num(1.0), second: num(2.0) }
}

fn near_second() -> EndDistances {
    EndDistances { first: num(2.0), second: num(1.0) }
}

fn point_of(handle: u64, number: i64) -> ParametricRef {
    ParametricRef { entity: Handle { value: handle }, part: Part::Point(number) }
}

fn line_entity(start: [f64; 3], end: [f64; 3]) -> PickedEntity {
    PickedEntity { kind: PickedKind::Line, points: vec![at(start), at(end)] }
}

#[test]
fn object_pick_takes_the_line_ends_then_asks_for_the_location() {
    let mut command = DimConstraintCommand::new(DimConstraintAxis::Linear, "d1".into());
    assert!(matches!(command.on_enter(), CmdResult::NeedPoint));
    let (start, end) = ([0.0, 0.0, 0.0], [100.0, 50.0, 0.0]);
    command.inject_picked_entity(line_entity(start, end));
    let place = [50.0, -30.0, 0.0];
    assert!(matches!(
        command.on_entity_pick(
            Handle { value: 7 },
            at([50.0, 25.0, 0.0]),
            &nowhere(),
            &survey(start, end, place)
        ),
        CmdResult::NeedPoint
    ));
    // Below the pair: horizontal, so the measured value is the X span.
    let CmdResult::ReportMeasurement(text) =
        command.on_point(at(place), &survey(start, end, place))
    else {
        panic!("the location must report the dimension text");
    };
    assert_eq!(text, "Dimension text = 100.0000");
    assert_eq!(command.prompt(), "DCLINEAR  Enter value or name and value <d1=100>:");
    let CmdResult::AddDimensionalConstraint(constraint, name, expression, _) =
        command.on_text_input("w=d1*2").expect("a value builds the constraint")
    else {
        panic!("the value must build the constraint");
    };
    assert_eq!(constraint.kind, ConstraintKind::DistanceX);
    assert_eq!(name, "w");
    assert_eq!(expression, "d1*2");
}

#[test]
fn a_location_beside_the_pair_measures_vertically() {
    let mut command = DimConstraintCommand::new(DimConstraintAxis::Linear, "d1".into());
    let (start, end) = ([0.0, 0.0, 0.0], [100.0, 50.0, 0.0]);
    command.accept_constraint_point(point_of(7, 0), at(start), near_first());
    command.accept_constraint_point(point_of(7, 1), at(end), near_first());
    let place = [140.0, 25.0, 0.0];
    let CmdResult::ReportMeasurement(text) =
        command.on_point(at(place), &survey(start, end, place))
    else {
        panic!("the location must report the dimension text");
    };
    assert_eq!(text, "Dimension text = 50.0000");
}

#[test]
fn the_same_point_twice_is_refused() {
    let mut command = DimConstraintCommand::new(DimConstraintAxis::Vertical, "d2".into());
    command.accept_constraint_point(point_of(7, 0), at([0.0, 0.0, 0.0]), near_first());
    let before = command.step;
    let CmdResult::ReportError(text) =
        command.accept_constraint_point(point_of(7, 0), at([0.0, 0.0, 0.0]), near_first())
    else {
        panic!("the same point must be refused");
    };
    assert_eq!(
        text,
        "The object or point is already selected.  Select a different object or constraint point."
    );
    assert_eq!(command.step, before);
}

#[test]
fn a_point_and_a_line_measure_across_the_line() {
    let mut command = DimConstraintCommand::new(DimConstraintAxis::Aligned, "d3".into());
    assert!(matches!(command.on_text_input("_p"), Some(CmdResult::NeedPoint)));
    command.accept_constraint_point(point_of(5, 0), at([0.0, 3.0, 0.0]), near_first());
    command.inject_picked_entity(line_entity([0.0, 0.0, 0.0], [10.0, 0.0, 0.0]));
    let geometry = PickGeometry {
        segment: None,
        direction: Some(at([1.0, 0.0, 0.0])),
        distances: near_second(),
    };
    let place = [4.0, 1.0, 0.0];
    let seen = survey([0.0, 3.0, 0.0], [10.0, 0.0, 0.0], place);
    command.on_entity_pick(Handle { value: 6 }, at([5.0, 0.0, 0.0]), &geometry, &seen);
    let CmdResult::ReportMeasurement(text) = command.on_point(at(place), &seen) else {
        panic!("the location must report the dimension text");
    };
    assert_eq!(text, "Dimension text = 3.0000");
    let Step::Value { ends, axis, kind, .. } = command.step else {
        panic!("a value is next");
    };
    assert_eq!(kind, ConstraintKind::DistanceDirected);
    assert_eq!(ends.second, point_of(6, 1));
    assert_eq!((axis.x, axis.y), (num(0.0), num(-1.0)));
    let CmdResult::AddDimensionalConstraint(constraint, name, expression, label) =
        command.on_enter()
    else {
        panic!("Enter takes the measured value");
    };
    assert_eq!(
        constraint.direction,
        Some(ParametricRef { entity: Handle { value: 6 }, part: Part::Whole })
    );
    assert_eq!((name.as_str(), expression.as_str()), ("d3", "3"));
    assert_eq!(label, "Aligned constraint");
}

#[test]
fn two_lines_are_made_parallel_first() {
    let mut command = DimConstraintCommand::new(DimConstraintAxis::Aligned, "d4".into());
    assert!(matches!(command.on_text_input("2lines"), Some(CmdResult::NeedPoint)));
    let geometry = PickGeometry {
        segment: Some(1),
        direction: Some(at([1.0, 0.0, 0.0])),
        distances: near_first(),
    };
    let seen = survey([0.0, 0.0, 0.0], [1.0, 1.0, 0.0], [0.0, 0.0, 0.0]);
    command.inject_picked_entity(PickedEntity {
        kind: PickedKind::Polyline,
        points: vec![at([0.0, 0.0, 0.0]), at([1.0, 0.0, 0.0])],
    });
    command.on_entity_pick(Handle { value: 8 }, at([0.5, 0.0, 0.0]), &geometry, &seen);
    // The last segment of a closed polyline ends at its first point.
    let Step::TwoLinesSecond { line } = command.step else {
        panic!("a second line is next");
    };
    assert_eq!(line.second_end.reference, point_of(8, 0));
    command.inject_picked_entity(line_entity([0.0, 2.0, 0.0], [1.0, 2.5, 0.0]));
    let request =
        command.on_entity_pick(Handle { value: 9 }, at([0.5, 2.0, 0.0]), &geometry, &seen);
    assert!(matches!(request, CmdResult::MakeParallel(_, _, second, _)
        if second.entity == Handle { value: 9 }));
    let Step::TwoLinesParallel { first_line, pick, .. } = command.step else {
        panic!("the lines are made parallel next");
    };
    assert_eq!((first_line, pick), (line, at([0.5, 2.0, 0.0])));
    let ends = [
        LineEnd { reference: point_of(9, 0), position: at([0.0, 2.0, 0.0]) },
        LineEnd { reference: point_of(9, 1), position: at([1.0, 2.0, 0.0]) },
    ];
    command.accept_parallel_line(
        ends[0],
        ends[1],
        Some(at([1.0, 0.0, 0.0])),
        near_second(),
        near_first(),
        near_second(),
    );
    let Step::Location { ends } = command.step else {
        panic!("a location is next");
    };
    assert_eq!((ends.first, ends.second), (point_of(8, 0), point_of(9, 1)));
}

#[test]
fn a_line_runs_between_two_points_of_its_object() {
    let (a, b) = (at([0.0, 0.0, 0.0]), at([1.0, 0.0, 0.0]));
    let object = |kind: PickedKind| PickedEntity { kind, points: vec![a, b] };
    assert_eq!(object(PickedKind::Line).line_points(None), Some((a, b)));
    assert_eq!(object(PickedKind::Polyline).line_points(Some(0)), Some((a, b)));
    assert_eq!(object(PickedKind::Polyline).line_points(Some(1)), Some((b, a)));
    assert_eq!(object(PickedKind::Polyline).line_points(Some(2)), None);
    assert_eq!(object(PickedKind::Polyline).line_points(Some(-1)), None);
    assert_eq!(object(PickedKind::Polyline).line_points(None), None);
    assert_eq!(object(PickedKind::Arc).line_points(None), None);
}

#[test]
fn picks_that_lead_nowhere_are_reported() {
    let mut command = DimConstraintCommand::new(DimConstraintAxis::Horizontal, "d5".into());
    command.on_enter();
    let seen = survey([0.0, 0.0, 0.0], [1.0, 1.0, 0.0], [0.0, 0.0, 0.0]);
    assert!(matches!(
        command.on_entity_pick(Handle { value: 0 }, at([0.0, 0.0, 0.0]), &nowhere(), &seen),
        CmdResult::ReportError(text) if text == "No object found."
    ));
    assert!(matches!(
        command.on_entity_pick(Handle { value: 4 }, at([0.0, 0.0, 0.0]), &nowhere(), &seen),
        CmdResult::NeedPoint
    ));
    command.inject_picked_entity(PickedEntity { kind: PickedKind::Other, points: Vec::new() });
    assert!(matches!(
        command.on_entity_pick(Handle { value: 4 }, at([0.0, 0.0, 0.0]), &nowhere(), &seen),
        CmdResult::ReportError(text)
            if text == "Invalid selection for Horizontal. Select a line, polyline segment or arc."
    ));
    command.inject_picked_entity(PickedEntity { kind: PickedKind::Arc, points: Vec::new() });
    assert!(matches!(
        command.on_entity_pick(Handle { value: 4 }, at([0.0, 0.0, 0.0]), &nowhere(), &seen),
        CmdResult::ReportError(text) if text == "No valid constraint point found."
    ));
    assert!(matches!(command.on_escape(), CmdResult::Cancel));
}

#[test]
fn prompts_and_options_follow_the_step() {
    let aligned = DimConstraintCommand::new(DimConstraintAxis::Aligned, "d6".into());
    assert_eq!(
        aligned.prompt(),
        "DCALIGNED  Specify first constraint point or [Object/Point & line/2Lines] <Object>:"
    );
    let keywords: Vec<&str> = aligned.options().iter().map(|option| option.keyword).collect();
    assert_eq!(keywords, vec!["O", "P", "2L"]);
    let mut linear = DimConstraintCommand::new(DimConstraintAxis::Linear, "d6".into());
    assert_eq!(
        linear.prompt(),
        "DCLINEAR  Specify first constraint point or [Object] <Object>:"
    );
    assert!(linear.on_text_input("P").is_none());
    assert!(linear.needs_entity_pick() && linear.point_step_accepts_keywords());
    assert!(linear.wants_text_input());
    assert_eq!(linear.options().len(), 1);
}

#[test]
fn a_value_needs_an_expression() {
    let mut command = DimConstraintCommand::new(DimConstraintAxis::Vertical, "d7".into());
    let (start, end) = ([0.0, 0.0, 0.0], [1.0, 2.0, 0.0]);
    command.accept_constraint_point(point_of(1, 0), at(start), near_first());
    command.accept_constraint_point(point_of(2, 0), at(end), near_first());
    command.on_point(at([5.0, 5.0, 0.0]), &survey(start, end, [5.0, 5.0, 0.0]));
    assert!(command.on_text_input("w = ").is_none());
    assert!(matches!(
        command.on_text_input("  12 "),
        Some(CmdResult::AddDimensionalConstraint(constraint, name, expression, _))
            if constraint.kind == ConstraintKind::DistanceY && name == "d7" && expression == "12"
    ));
}

#[test]
fn the_menu_runs_the_command_that_is_chosen() {
    let mut menu = DimConstraintMenuCommand;
    assert_eq!(menu.name(), "DIMCONSTRAINT");
    assert!(matches!(menu.on_text_input(" _an "),
        Some(CmdResult::Dispatch(command)) if command == "DCANGULAR"));
    assert!(matches!(menu.on_text_input("radius"),
        Some(CmdResult::Dispatch(command)) if command == "DCRADIUS"));
    assert!(menu.on_text_input("nothing").is_none());
    assert!(matches!(menu.on_enter(),
        CmdResult::Dispatch(command) if command == "DCALIGNED"));
    assert!(matches!(menu.on_point(at([0.0, 0.0, 0.0])), CmdResult::NeedPoint));
    assert_eq!(menu.options().len(), 8);
    assert!(menu.prompt().ends_with("<Aligned>:"));
    assert!(matches!(menu.on_escape(), CmdResult::Cancel));
}
