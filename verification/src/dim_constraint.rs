//! The dimensional constraint commands: two constraint points, or the ends of an
//! object, or a point and a line, or two lines; then a place for the dimension
//! line, and a name and a value.
//!
//! The geometry engine measures; the commands here decide what is asked next.

use crate::command::{
    CmdResult, ConstraintKind, DimensionalConstraint, LineEnd, ParametricRef, Part, ResultView,
};
use crate::geometry::{Handle, Vector3};
use crate::scalar::{Scalar, ONE_BITS};
use crate::search::{place, seek};
use crate::text::{alike, blank, is_alike, is_blank, join, join3, trim, trimmed};
use vstd::prelude::*;
use vstd::string::*;

verus! {

/// Which distance a dimensional constraint measures.
#[derive(Clone, Copy, PartialEq, Eq, Structural, Debug)]
pub enum DimConstraintAxis {
    /// Horizontal or vertical, as the dimension line is placed.
    Linear,
    Horizontal,
    Vertical,
    Aligned,
}

/// What kind of object was picked.
#[derive(Clone, Copy, PartialEq, Eq, Structural, Debug)]
pub enum PickedKind {
    Line,
    Arc,
    Polyline,
    Other,
}

/// An object that was picked: its kind, and its points by their number.
pub struct PickedEntity {
    pub kind: PickedKind,
    pub points: Vec<Vector3>,
}

/// What the geometry engine finds at a pick.
#[derive(Clone, Copy, PartialEq, Eq, Structural, Debug)]
pub struct PickGeometry {
    /// The segment of a polyline that was picked.
    pub segment: Option<i32>,
    /// The unit direction of the line that was picked, from its start to its
    /// end; none where it has no length.
    pub direction: Option<Vector3>,
    /// How far the two ends of the line are from the constraint point.
    pub distances: EndDistances,
}

/// The squared distances of the two ends of a line from a point.
#[derive(Clone, Copy, PartialEq, Eq, Structural, Debug)]
pub struct EndDistances {
    pub first: Scalar,
    pub second: Scalar,
}

/// A line that distances are measured from: a line as a whole, or one segment
/// of a polyline.
#[derive(Clone, Copy, PartialEq, Eq, Structural, Debug)]
pub struct LineTarget {
    pub line: ParametricRef,
    /// The unit direction from its start to its end.
    pub dir: Vector3,
    pub first_end: LineEnd,
    pub second_end: LineEnd,
}

impl LineTarget {
    /// The end that is nearer; the first where both are as near.
    pub open spec fn nearest(self, distances: EndDistances) -> LineEnd {
        if distances.second.below(distances.first) {
            self.second_end
        } else {
            self.first_end
        }
    }

    /// The end that is nearer, which is the one to measure from.
    pub fn nearest_end(&self, distances: EndDistances) -> (result: LineEnd)
        ensures
            result == self.nearest(distances),
    {
        if distances.second.lt(distances.first) {
            self.second_end
        } else {
            self.first_end
        }
    }
}

/// What the command waits for.
#[derive(Clone, Copy, PartialEq, Eq, Structural, Debug)]
pub enum Step {
    First,
    Object,
    Second { first: ParametricRef, first_point: Vector3 },
    PointLinePoint,
    PointLineLine { point: ParametricRef, point_pos: Vector3 },
    LineFirst,
    LinePoint { line: LineTarget },
    TwoLinesFirst,
    TwoLinesSecond { line: LineTarget },
    /// For the application to make the second line parallel. It was picked at this
    /// point.
    TwoLinesParallel { first_line: LineTarget, second_line: LineTarget, pick: Vector3 },
    Location { ends: Measured },
    Value { ends: Measured, location: Vector3, axis: Vector3, kind: ConstraintKind },
}

/// The two ends of a distance, and the line that it is perpendicular to.
#[derive(Clone, Copy, PartialEq, Eq, Structural, Debug)]
pub struct Measured {
    pub first: ParametricRef,
    pub second: ParametricRef,
    pub first_point: Vector3,
    pub second_point: Vector3,
    pub direction: Option<LineTarget>,
}

/// A measured value, as text with four decimals and as an expression.
pub struct Reading {
    pub text: String,
    pub expression: String,
}

/// What the geometry engine measures between two ends for a place of the
/// dimension line.
pub struct Survey {
    /// A linear dimension with its line at this place runs horizontally.
    pub runs_horizontally: bool,
    /// The unit direction between the ends; that of the X axis where they fall
    /// together.
    pub aligned_axis: Vector3,
    /// The distance along X.
    pub across: Reading,
    /// The distance along Y.
    pub up: Reading,
    /// The distance between the ends.
    pub between: Reading,
    /// The distance perpendicular to the line.
    pub directed: Reading,
}

/// The dimensional constraint command.
pub struct DimConstraintCommand {
    pub axis: DimConstraintAxis,
    pub step: Step,
    pub picked_entity: Option<PickedEntity>,
    /// The name that the application keeps free for the constraint.
    pub default_name: String,
    /// The measured value as an expression, once there is one.
    pub measured: String,
}

/// The name of the command.
pub open spec fn command_name(axis: DimConstraintAxis) -> Seq<char> {
    match axis {
        DimConstraintAxis::Linear => "DCLINEAR"@,
        DimConstraintAxis::Horizontal => "DCHORIZONTAL"@,
        DimConstraintAxis::Vertical => "DCVERTICAL"@,
        DimConstraintAxis::Aligned => "DCALIGNED"@,
    }
}

/// What the command calls itself.
pub open spec fn noun(axis: DimConstraintAxis) -> Seq<char> {
    match axis {
        DimConstraintAxis::Linear => "Linear"@,
        DimConstraintAxis::Horizontal => "Horizontal"@,
        DimConstraintAxis::Vertical => "Vertical"@,
        DimConstraintAxis::Aligned => "Aligned"@,
    }
}

/// The name under which the constraint can be undone.
pub open spec fn constraint_label(axis: DimConstraintAxis) -> Seq<char> {
    match axis {
        DimConstraintAxis::Linear => "Linear constraint"@,
        DimConstraintAxis::Horizontal => "Horizontal distance constraint"@,
        DimConstraintAxis::Vertical => "Vertical distance constraint"@,
        DimConstraintAxis::Aligned => "Aligned constraint"@,
    }
}

/// What the command asks the user.
pub open spec fn prompt_text(
    axis: DimConstraintAxis,
    step: Step,
    default_name: Seq<char>,
    measured: Seq<char>,
) -> Seq<char> {
    let name = command_name(axis);
    match step {
        Step::First => if axis is Aligned {
            name
                + "  Specify first constraint point or [Object/Point & line/2Lines] <Object>:"@
        } else {
            name + "  Specify first constraint point or [Object] <Object>:"@
        },
        Step::Object => name + "  Select object:"@,
        Step::Second { .. } => name + "  Specify second constraint point:"@,
        Step::PointLinePoint => name + "  Specify constraint point or [Line] <Line>:"@,
        Step::PointLineLine { .. } | Step::LineFirst => name + "  Select line:"@,
        Step::LinePoint { .. } => name + "  Select constraint point:"@,
        Step::TwoLinesFirst => name + "  Select first line:"@,
        Step::TwoLinesSecond { .. } | Step::TwoLinesParallel { .. } => name
            + "  Select second line to make parallel:"@,
        Step::Location { .. } => name + "  Specify dimension line location:"@,
        Step::Value { .. } => name + "  Enter value or name and value <"@ + default_name + "="@
            + measured + ">:"@,
    }
}

/// The point of an object with a number.
pub open spec fn resolve_point(entity: PickedEntity, number: int) -> Option<Vector3> {
    if 0 <= number < entity.points.len() {
        Some(entity.points@[number])
    } else {
        None
    }
}

/// The points that a segment of a polyline runs between. The last segment of a
/// closed polyline ends at the first point.
pub open spec fn segment_end(entity: PickedEntity, index: int) -> int {
    if resolve_point(entity, index + 1) is Some {
        index + 1
    } else {
        0
    }
}

/// The numbers of the two points that picking an object constrains: the ends of
/// a line or an arc, or those of the segment of a polyline that was picked.
pub open spec fn object_ends(entity: PickedEntity, segment: Option<i32>) -> Option<(int, int)> {
    match entity.kind {
        PickedKind::Line | PickedKind::Arc => Some((0, 1)),
        PickedKind::Polyline => match segment {
            Some(index) => Some((index as int, segment_end(entity, index as int))),
            None => None,
        },
        PickedKind::Other => None,
    }
}

/// A reference to a point.
pub open spec fn point_ref(handle: Handle, number: int) -> ParametricRef {
    ParametricRef { entity: handle, part: Part::Point(number as i64) }
}

/// What is picked of an object that has a line at the pick, and the numbers of the
/// two points that the line runs between.
pub open spec fn line_numbers(entity: PickedEntity, segment: Option<i32>) -> Option<
    (Part, int, int),
> {
    match entity.kind {
        PickedKind::Line => Some((Part::Whole, 0int, 1int)),
        PickedKind::Polyline => match segment {
            Some(index) => if index < 0 {
                None
            } else {
                Some((
                    Part::Segment(index as i64),
                    index as int,
                    segment_end(entity, index as int),
                ))
            },
            None => None,
        },
        _ => None,
    }
}

/// The two points that the line at a pick runs between.
pub open spec fn line_between(entity: PickedEntity, segment: Option<i32>) -> Option<
    (Vector3, Vector3),
> {
    match line_numbers(entity, segment) {
        Some((_, first, second)) => match (
            resolve_point(entity, first),
            resolve_point(entity, second),
        ) {
            (Some(start), Some(finish)) => Some((start, finish)),
            _ => None,
        },
        None => None,
    }
}

/// The line that a pick measures from, where there is one.
pub open spec fn line_target(
    entity: PickedEntity,
    handle: Handle,
    geometry: PickGeometry,
) -> Option<LineTarget> {
    match line_numbers(entity, geometry.segment) {
        Some((part, first, second)) => match (
            resolve_point(entity, first),
            resolve_point(entity, second),
            geometry.direction,
        ) {
            (Some(start), Some(finish), Some(dir)) => Some(
                LineTarget {
                    line: ParametricRef { entity: handle, part },
                    dir,
                    first_end: LineEnd { reference: point_ref(handle, first), position: start },
                    second_end: LineEnd {
                        reference: point_ref(handle, second),
                        position: finish,
                    },
                },
            ),
            _ => None,
        },
        None => None,
    }
}

/// What picking a line comes to: the line, or what to tell the user. There is
/// nothing to tell where the application has not handed over the object.
pub open spec fn picked_line(
    entity: Option<PickedEntity>,
    handle: Handle,
    geometry: PickGeometry,
) -> Result<LineTarget, ResultView> {
    if handle.null() {
        Err(ResultView::ReportError(DimConstraintCommand::NO_OBJECT@))
    } else {
        match entity {
            None => Err(ResultView::NeedPoint),
            Some(object) => match line_target(object, handle, geometry) {
                Some(line) => Ok(line),
                None => Err(
                    ResultView::ReportError(
                        DimConstraintCommand::INVALID_LINE@,
                    ),
                ),
            },
        }
    }
}

/// What the user is told who picks the same thing twice.
pub open spec fn same_point() -> ResultView {
    ResultView::ReportError(
        DimConstraintCommand::SAME_POINT@,
    )
}

/// The next step and the request after an entity was picked.
pub open spec fn after_pick(
    axis: DimConstraintAxis,
    step: Step,
    entity: Option<PickedEntity>,
    handle: Handle,
    point: Vector3,
    geometry: PickGeometry,
) -> (Step, ResultView) {
    match step {
        Step::First | Step::Second { .. } | Step::PointLinePoint | Step::LinePoint { .. } => (
            step,
            ResultView::CheckConstraintPoint(
                if handle.null() {
                    None
                } else {
                    Some(handle)
                },
                point,
            ),
        ),
        Step::PointLineLine { point: first, point_pos } => match picked_line(
            entity,
            handle,
            geometry,
        ) {
            Err(request) => (step, request),
            Ok(line) => if line.line.entity == first.entity {
                (step, same_point())
            } else {
                let end = line.nearest(geometry.distances);
                (
                    Step::Location {
                        ends: Measured {
                            first,
                            second: end.reference,
                            first_point: point_pos,
                            second_point: end.position,
                            direction: Some(line),
                        },
                    },
                    ResultView::NeedPoint,
                )
            },
        },
        Step::LineFirst => match picked_line(entity, handle, geometry) {
            Err(request) => (step, request),
            Ok(line) => (Step::LinePoint { line }, ResultView::NeedPoint),
        },
        Step::TwoLinesFirst => match picked_line(entity, handle, geometry) {
            Err(request) => (step, request),
            Ok(line) => (Step::TwoLinesSecond { line }, ResultView::NeedPoint),
        },
        Step::TwoLinesSecond { line: first_line } => match picked_line(entity, handle, geometry) {
            Err(request) => (step, request),
            Ok(second_line) => if second_line.line == first_line.line {
                (step, same_point())
            } else {
                (
                    Step::TwoLinesParallel { first_line, second_line, pick: point },
                    ResultView::MakeParallel(
                        first_line.line,
                        seq![first_line.first_end.reference, first_line.second_end.reference],
                        second_line.line,
                        seq![second_line.first_end.reference, second_line.second_end.reference],
                    ),
                )
            },
        },
        Step::Object => if handle.null() {
            (step, ResultView::ReportError(DimConstraintCommand::NO_OBJECT@))
        } else {
            match entity {
                None => (step, ResultView::NeedPoint),
                Some(object) => match object_ends(object, geometry.segment) {
                    None => (
                        step,
                        ResultView::ReportError(
                            "Invalid selection for "@ + noun(axis)
                                + ". Select a line, polyline segment or arc."@,
                        ),
                    ),
                    Some((first, second)) => match (
                        resolve_point(object, first),
                        resolve_point(object, second),
                    ) {
                        (Some(first_point), Some(second_point)) => (
                            Step::Location {
                                ends: Measured {
                                    first: point_ref(handle, first),
                                    second: point_ref(handle, second),
                                    first_point,
                                    second_point,
                                    direction: None,
                                },
                            },
                            ResultView::NeedPoint,
                        ),
                        _ => (step, ResultView::ReportError(DimConstraintCommand::NO_POINT@)),
                    },
                },
            }
        },
        Step::TwoLinesParallel { .. } => (step, ResultView::NeedPoint),
        Step::Location { .. } | Step::Value { .. } => (step, ResultView::NeedPoint),
    }
}

/// The next step and the request after an entity was picked: where the command waits
/// for a place or a value, the pick is but a point.
pub open spec fn after_entity_pick(
    axis: DimConstraintAxis,
    step: Step,
    entity: Option<PickedEntity>,
    handle: Handle,
    point: Vector3,
    geometry: PickGeometry,
    survey: Survey,
) -> (Step, ResultView) {
    if step is Location || step is Value {
        after_point(axis, step, point, survey)
    } else {
        after_pick(axis, step, entity, handle, point, geometry)
    }
}

/// The object that the application handed over is used up by a step that looks
/// at it.
pub open spec fn uses_object(step: Step, handle: Handle) -> bool {
    !handle.null() && (step is PointLineLine || step is LineFirst || step is TwoLinesFirst
        || step is TwoLinesSecond || step is Object)
}

/// The next step and the request after the application found a constraint point.
pub open spec fn after_constraint_point(
    step: Step,
    reference: ParametricRef,
    point: Vector3,
    distances: EndDistances,
) -> (Step, ResultView) {
    match step {
        Step::First => (
            Step::Second { first: reference, first_point: point },
            ResultView::NeedPoint,
        ),
        Step::Second { first, first_point } => if first == reference {
            (step, same_point())
        } else {
            (
                Step::Location {
                    ends: Measured {
                        first,
                        second: reference,
                        first_point,
                        second_point: point,
                        direction: None,
                    },
                },
                ResultView::NeedPoint,
            )
        },
        Step::PointLinePoint => (
            Step::PointLineLine { point: reference, point_pos: point },
            ResultView::NeedPoint,
        ),
        Step::LinePoint { line } => if line.line.entity == reference.entity {
            (step, same_point())
        } else {
            let end = line.nearest(distances);
            (
                Step::Location {
                    ends: Measured {
                        first: end.reference,
                        second: reference,
                        first_point: end.position,
                        second_point: point,
                        direction: Some(line),
                    },
                },
                ResultView::NeedPoint,
            )
        },
        _ => (step, ResultView::NeedPoint),
    }
}

/// The next step and the request after the application made the second line
/// parallel. The distance runs from the end of the first line that is nearer to
/// the pick, to the end of the second that is nearer to that end.
pub open spec fn after_parallel(
    step: Step,
    first_end: LineEnd,
    second_end: LineEnd,
    direction: Option<Vector3>,
    from_pick: EndDistances,
    from_first: EndDistances,
    from_second: EndDistances,
) -> (Step, ResultView) {
    match step {
        Step::TwoLinesParallel { first_line, second_line, .. } => match direction {
            None => (step, ResultView::ReportError(DimConstraintCommand::NO_POINT@)),
            Some(dir) => {
                let solved = LineTarget { line: second_line.line, dir, first_end, second_end };
                let start = first_line.nearest(from_pick);
                let end = solved.nearest(
                    if from_pick.second.below(from_pick.first) {
                        from_second
                    } else {
                        from_first
                    },
                );
                (
                    Step::Location {
                        ends: Measured {
                            first: start.reference,
                            second: end.reference,
                            first_point: start.position,
                            second_point: end.position,
                            direction: Some(first_line),
                        },
                    },
                    ResultView::NeedPoint,
                )
            },
        },
        _ => (step, ResultView::NeedPoint),
    }
}

/// The X axis.
pub open spec fn x_axis() -> Vector3 {
    Vector3 {
        x: Scalar { bits: ONE_BITS },
        y: Scalar { bits: 0 },
        z: Scalar { bits: 0 },
        length: Scalar { bits: ONE_BITS },
    }
}

/// The Y axis.
pub open spec fn y_axis() -> Vector3 {
    Vector3 {
        x: Scalar { bits: 0 },
        y: Scalar { bits: ONE_BITS },
        z: Scalar { bits: 0 },
        length: Scalar { bits: ONE_BITS },
    }
}

/// The direction perpendicular to a line in the plane.
pub open spec fn across(line: LineTarget) -> Vector3 {
    Vector3 {
        x: line.dir.y,
        y: line.dir.x.opposite(),
        z: Scalar { bits: 0 },
        length: line.dir.length,
    }
}

/// What is measured, and along which axis. A distance from a line runs
/// perpendicular to it; a linear one is horizontal or vertical as its line is
/// placed; the others are fixed.
pub open spec fn decision(
    axis: DimConstraintAxis,
    direction: Option<LineTarget>,
    survey: Survey,
) -> (ConstraintKind, Vector3) {
    match direction {
        Some(line) => (ConstraintKind::DistanceDirected, across(line)),
        None => match axis {
            DimConstraintAxis::Linear => if survey.runs_horizontally {
                (ConstraintKind::DistanceX, x_axis())
            } else {
                (ConstraintKind::DistanceY, y_axis())
            },
            DimConstraintAxis::Horizontal => (ConstraintKind::DistanceX, x_axis()),
            DimConstraintAxis::Vertical => (ConstraintKind::DistanceY, y_axis()),
            DimConstraintAxis::Aligned => (ConstraintKind::Distance, survey.aligned_axis),
        },
    }
}

/// The reading of what is measured.
pub open spec fn reading(kind: ConstraintKind, survey: Survey) -> Reading {
    match kind {
        ConstraintKind::DistanceX => survey.across,
        ConstraintKind::DistanceY => survey.up,
        ConstraintKind::DistanceDirected => survey.directed,
        ConstraintKind::Distance => survey.between,
    }
}

/// The next step and the request after a point was picked.
pub open spec fn after_point(
    axis: DimConstraintAxis,
    step: Step,
    point: Vector3,
    survey: Survey,
) -> (Step, ResultView) {
    match step {
        Step::First | Step::Second { .. } | Step::PointLinePoint | Step::LinePoint { .. } => (
            step,
            ResultView::CheckConstraintPoint(None, point),
        ),
        Step::Object
        | Step::PointLineLine { .. }
        | Step::LineFirst
        | Step::TwoLinesFirst
        | Step::TwoLinesSecond { .. } => (step, ResultView::ReportError(DimConstraintCommand::NO_OBJECT@)),
        Step::Location { ends } => {
            let (kind, along) = decision(axis, ends.direction, survey);
            (
                Step::Value { ends, location: point, axis: along, kind },
                ResultView::ReportMeasurement(
                    "Dimension text = "@ + reading(kind, survey).text@,
                ),
            )
        },
        Step::TwoLinesParallel { .. } | Step::Value { .. } => (step, ResultView::NeedPoint),
    }
}

/// The expression that a measured value leaves with the command.
pub open spec fn measured_after(
    axis: DimConstraintAxis,
    step: Step,
    survey: Survey,
    before: Seq<char>,
) -> Seq<char> {
    match step {
        Step::Location { ends } => reading(
            decision(axis, ends.direction, survey).0,
            survey,
        ).expression@,
        _ => before,
    }
}

/// The constraint that the command has come to.
pub open spec fn constraint(step: Step) -> Option<DimensionalConstraint> {
    match step {
        Step::Value { ends, location, axis, kind } => Some(
            DimensionalConstraint {
                kind,
                first: ends.first,
                second: ends.second,
                first_point: ends.first_point,
                second_point: ends.second_point,
                location,
                axis,
                direction: match ends.direction {
                    Some(line) => Some(line.line),
                    None => None,
                },
            },
        ),
        _ => None,
    }
}

/// The request to add the constraint. It takes an expression.
pub open spec fn build_view(
    axis: DimConstraintAxis,
    step: Step,
    name: Seq<char>,
    expression: Seq<char>,
) -> Option<ResultView> {
    match constraint(step) {
        Some(found) => if blank(expression) {
            None
        } else {
            Some(
                ResultView::AddDimensionalConstraint(
                    found,
                    name,
                    expression,
                    constraint_label(axis),
                ),
            )
        },
        None => None,
    }
}

/// The text without the underscores at its start.
pub open spec fn unmarked(text: Seq<char>) -> Seq<char>
    decreases text.len(),
{
    if text.len() > 0 && text[0] == '_' {
        unmarked(text.subrange(1, text.len() as int))
    } else {
        text
    }
}

/// The keyword in what the user typed.
pub open spec fn keyword(text: Seq<char>) -> Seq<char> {
    unmarked(trimmed(text))
}

/// The character is an equals sign.
pub open spec fn equals_sign() -> spec_fn(char) -> bool {
    |c: char| c == '='
}

/// The name and the expression in what the user typed: before and behind the
/// first equals sign, or else the name that is kept free, and all of it.
pub open spec fn name_and_value(text: Seq<char>, default_name: Seq<char>) -> (Seq<char>, Seq<char>) {
    let typed = trimmed(text);
    match seek(typed, 0, equals_sign()) {
        Some(i) => (
            trimmed(typed.subrange(0, i)),
            trimmed(typed.subrange(i + 1, typed.len() as int)),
        ),
        None => (default_name, typed),
    }
}

/// The next step and the request after the user typed something; none where it
/// means nothing to the command.
pub open spec fn after_text(
    axis: DimConstraintAxis,
    step: Step,
    text: Seq<char>,
    default_name: Seq<char>,
) -> (Step, Option<ResultView>) {
    let word = keyword(text);
    match step {
        Step::First => if alike(word, "O"@) || alike(word, "OBJECT"@) {
            (Step::Object, Some(ResultView::NeedPoint))
        } else if axis is Aligned && (alike(word, "P"@) || alike(word, "POINT"@) || alike(
            word,
            "POINT & LINE"@,
        ) || alike(word, "POINT&LINE"@)) {
            (Step::PointLinePoint, Some(ResultView::NeedPoint))
        } else if axis is Aligned && (alike(word, "2L"@) || alike(word, "2LINES"@)) {
            (Step::TwoLinesFirst, Some(ResultView::NeedPoint))
        } else {
            (step, None)
        },
        Step::PointLinePoint => if alike(word, "L"@) || alike(word, "LINE"@) {
            (Step::LineFirst, Some(ResultView::NeedPoint))
        } else {
            (step, None)
        },
        Step::Value { .. } => {
            let (name, expression) = name_and_value(text, default_name);
            (step, build_view(axis, step, name, expression))
        },
        _ => (step, None),
    }
}

/// The next step and the request after the user pressed Enter.
pub open spec fn after_enter(
    axis: DimConstraintAxis,
    step: Step,
    default_name: Seq<char>,
    measured: Seq<char>,
) -> (Step, ResultView) {
    match step {
        Step::First => (Step::Object, ResultView::NeedPoint),
        Step::PointLinePoint => (Step::LineFirst, ResultView::NeedPoint),
        Step::Value { .. } => (
            step,
            match build_view(axis, step, default_name, measured) {
                Some(request) => request,
                None => ResultView::Cancel,
            },
        ),
        _ => (step, ResultView::Cancel),
    }
}

/// Only a command that waits for a value asks for a constraint: no pick, point
/// or key does it earlier.
pub proof fn constraint_waits_for_a_value(
    axis: DimConstraintAxis,
    step: Step,
    entity: Option<PickedEntity>,
    handle: Handle,
    reference: ParametricRef,
    point: Vector3,
    geometry: PickGeometry,
    survey: Survey,
    text: Seq<char>,
    name: Seq<char>,
    measured: Seq<char>,
)
    requires
        !(step is Value),
    ensures
        !(after_pick(axis, step, entity, handle, point, geometry).1 is AddDimensionalConstraint),
        !(after_constraint_point(step, reference, point, geometry.distances).1
            is AddDimensionalConstraint),
        !(after_point(axis, step, point, survey).1 is AddDimensionalConstraint),
        !(after_enter(axis, step, name, measured).1 is AddDimensionalConstraint),
        after_text(axis, step, text, name).1 matches Some(request) ==> !(request
            is AddDimensionalConstraint),
{
}

/// Once the dimension line has its place, Enter asks for a constraint between
/// the two points that were settled, under the name that is kept free and with
/// the value that was measured.
pub proof fn measured_value_is_taken(
    axis: DimConstraintAxis,
    ends: Measured,
    point: Vector3,
    survey: Survey,
    name: Seq<char>,
    before: Seq<char>,
)
    requires
        !blank(measured_after(axis, Step::Location { ends }, survey, before)),
    ensures
        ({
            let start = Step::Location { ends };
            let placed = after_point(axis, start, point, survey).0;
            let measured = measured_after(axis, start, survey, before);
            after_enter(axis, placed, name, measured).1
                matches ResultView::AddDimensionalConstraint(found, called, expression, _)
                && found.first == ends.first && found.second == ends.second && found.location
                == point && found.kind == decision(axis, ends.direction, survey).0 && called == name
                && expression == measured
        }),
{
}

/// A choice that the user is offered.
pub struct CmdOption {
    pub label: &'static str,
    pub keyword: &'static str,
}

/// The choices that the user is offered.
pub open spec fn offered(options: Seq<CmdOption>) -> Seq<(Seq<char>, Seq<char>)> {
    Seq::new(options.len(), |i: int| (options[i].label@, options[i].keyword@))
}

/// The choices that the user is offered at a step: what each is called, and the
/// keyword for it.
pub open spec fn choices(axis: DimConstraintAxis, step: Step) -> Seq<(Seq<char>, Seq<char>)> {
    match step {
        Step::First => if axis is Aligned {
            seq![("Object"@, "O"@), ("Point & line"@, "P"@), ("2Lines"@, "2L"@)]
        } else {
            seq![("Object"@, "O"@)]
        },
        Step::PointLinePoint => seq![("Line"@, "L"@)],
        _ => Seq::empty(),
    }
}

/// The step takes keywords or a value besides a point.
pub open spec fn takes_keywords(step: Step) -> bool {
    step is First || step is PointLinePoint || step is Value
}

/// The step takes an entity.
pub open spec fn takes_entity(step: Step) -> bool {
    !(step is TwoLinesParallel || step is Location || step is Value)
}

/// A request that may be missing.
pub open spec fn request_view(request: Option<CmdResult>) -> Option<ResultView> {
    match request {
        Some(found) => Some(found@),
        None => None,
    }
}

fn strip_marks(text: &str) -> (result: &str)
    ensures
        result@ == unmarked(text@),
{
    let length: usize = text.unicode_len();
    let mut i: usize = 0;
    proof {
        assert(text@.subrange(0, length as int) =~= text@);
    }
    while i < length && text.get_char(i) == '_'
        invariant
            i <= length,
            length == text@.len(),
            unmarked(text@) == unmarked(text@.subrange(i as int, length as int)),
        decreases length - i,
    {
        proof {
            let rest = text@.subrange(i as int, length as int);
            assert(rest.subrange(1, rest.len() as int) =~= text@.subrange(
                i + 1,
                length as int,
            ));
        }
        i = i + 1;
    }
    proof {
        let rest = text@.subrange(i as int, length as int);
        assert(i < length ==> rest[0] == text@[i as int]);
    }
    text.substring_char(i, length)
}

fn find_equals(text: &str) -> (result: Option<usize>)
    ensures
        place(result) == seek(text@, 0, equals_sign()),
        result matches Some(i) ==> i < text@.len(),
{
    let length: usize = text.unicode_len();
    let mut i: usize = 0;
    while i < length
        invariant
            i <= length,
            length == text@.len(),
            seek(text@, 0, equals_sign()) == seek(text@, i as int, equals_sign()),
        decreases length - i,
    {
        if text.get_char(i) == '=' {
            return Some(i);
        }
        i = i + 1;
    }
    None
}

impl PickedEntity {
    fn resolve(&self, number: i64) -> (result: Option<Vector3>)
        ensures
            result == resolve_point(*self, number as int),
    {
        if 0 <= number && (number as u64) < self.points.len() as u64 {
            Some(self.points[number as usize])
        } else {
            None
        }
    }

    fn end_of_segment(&self, index: i32) -> (result: i64)
        ensures
            result == segment_end(*self, index as int),
    {
        let next: i64 = index as i64 + 1;
        if self.resolve(next).is_some() {
            next
        } else {
            0
        }
    }

    fn ends(&self, segment: Option<i32>) -> (result: Option<(i64, i64)>)
        ensures
            match (result, object_ends(*self, segment)) {
                (Some(ends), Some(expected)) => ends.0 == expected.0 && ends.1 == expected.1,
                (None, None) => true,
                _ => false,
            },
    {
        match self.kind {
            PickedKind::Line | PickedKind::Arc => Some((0, 1)),
            PickedKind::Polyline => match segment {
                Some(index) => Some((index as i64, self.end_of_segment(index))),
                None => None,
            },
            PickedKind::Other => None,
        }
    }

    fn numbers(&self, segment: Option<i32>) -> (result: Option<(Part, i64, i64)>)
        ensures
            match (result, line_numbers(*self, segment)) {
                (Some(found), Some(expected)) => found.0 == expected.0 && found.1 == expected.1
                    && found.2 == expected.2,
                (None, None) => true,
                _ => false,
            },
    {
        match self.kind {
            PickedKind::Line => Some((Part::Whole, 0, 1)),
            PickedKind::Polyline => match segment {
                Some(index) => if index < 0 {
                    None
                } else {
                    Some((Part::Segment(index as i64), index as i64, self.end_of_segment(index)))
                },
                None => None,
            },
            _ => None,
        }
    }

    /// The two points that the line at a pick runs between, for the geometry
    /// engine to find its direction.
    pub fn line_points(&self, segment: Option<i32>) -> (result: Option<(Vector3, Vector3)>)
        ensures
            result == line_between(*self, segment),
    {
        match self.numbers(segment) {
            Some((_, first, second)) => match (self.resolve(first), self.resolve(second)) {
                (Some(start), Some(finish)) => Some((start, finish)),
                _ => None,
            },
            None => None,
        }
    }

    fn line(&self, handle: Handle, geometry: &PickGeometry) -> (result: Option<LineTarget>)
        ensures
            result == line_target(*self, handle, *geometry),
    {
        match self.numbers(geometry.segment) {
            Some((part, first, second)) => match (
                self.resolve(first),
                self.resolve(second),
                geometry.direction,
            ) {
                (Some(start), Some(finish), Some(dir)) => Some(
                    LineTarget {
                        line: ParametricRef { entity: handle, part },
                        dir,
                        first_end: LineEnd {
                            reference: ParametricRef { entity: handle, part: Part::Point(first) },
                            position: start,
                        },
                        second_end: LineEnd {
                            reference: ParametricRef { entity: handle, part: Part::Point(second) },
                            position: finish,
                        },
                    },
                ),
                _ => None,
            },
            None => None,
        }
    }
}

fn report(message: &str) -> (result: CmdResult)
    ensures
        result@ == ResultView::ReportError(message@),
{
    CmdResult::ReportError(message.to_owned())
}

impl DimConstraintCommand {
    pub const NO_OBJECT: &'static str = "No object found.";

    pub const NO_POINT: &'static str = "No valid constraint point found.";

    pub const SAME_POINT: &'static str = "The object or point is already selected.  Select a different object or constraint point.";

    pub const INVALID_LINE: &'static str = "Invalid selection for Aligned. Select a line segment, polyline segment, text, MText, major or minor axis of ellipse or elliptical arc.";

    /// A command that waits for its first point.
    pub fn new(axis: DimConstraintAxis, default_name: String) -> (result: Self)
        ensures
            result.axis == axis,
            result.step is First,
            result.picked_entity is None,
            result.default_name == default_name,
            result.measured@ == ""@,
    {
        DimConstraintCommand {
            axis,
            step: Step::First,
            picked_entity: None,
            default_name,
            measured: "".to_owned(),
        }
    }

    /// The command goes on as the same one.
    pub open spec fn continues(self, before: Self) -> bool {
        self.axis == before.axis && self.default_name == before.default_name
    }

    pub fn name(&self) -> (result: &'static str)
        ensures
            result@ == command_name(self.axis),
    {
        match self.axis {
            DimConstraintAxis::Linear => "DCLINEAR",
            DimConstraintAxis::Horizontal => "DCHORIZONTAL",
            DimConstraintAxis::Vertical => "DCVERTICAL",
            DimConstraintAxis::Aligned => "DCALIGNED",
        }
    }

    fn noun_of(&self) -> (result: &'static str)
        ensures
            result@ == noun(self.axis),
    {
        match self.axis {
            DimConstraintAxis::Linear => "Linear",
            DimConstraintAxis::Horizontal => "Horizontal",
            DimConstraintAxis::Vertical => "Vertical",
            DimConstraintAxis::Aligned => "Aligned",
        }
    }

    fn label(&self) -> (result: &'static str)
        ensures
            result@ == constraint_label(self.axis),
    {
        match self.axis {
            DimConstraintAxis::Linear => "Linear constraint",
            DimConstraintAxis::Horizontal => "Horizontal distance constraint",
            DimConstraintAxis::Vertical => "Vertical distance constraint",
            DimConstraintAxis::Aligned => "Aligned constraint",
        }
    }

    /// What the command asks the user.
    pub fn prompt(&self) -> (result: String)
        ensures
            result@ == prompt_text(self.axis, self.step, self.default_name@, self.measured@),
    {
        let name = self.name();
        match self.step {
            Step::First => if self.axis == DimConstraintAxis::Aligned {
                join(
                    name,
                    "  Specify first constraint point or [Object/Point & line/2Lines] <Object>:",
                )
            } else {
                join(name, "  Specify first constraint point or [Object] <Object>:")
            },
            Step::Object => join(name, "  Select object:"),
            Step::Second { .. } => join(name, "  Specify second constraint point:"),
            Step::PointLinePoint => join(name, "  Specify constraint point or [Line] <Line>:"),
            Step::PointLineLine { .. } | Step::LineFirst => join(name, "  Select line:"),
            Step::LinePoint { .. } => join(name, "  Select constraint point:"),
            Step::TwoLinesFirst => join(name, "  Select first line:"),
            Step::TwoLinesSecond { .. } | Step::TwoLinesParallel { .. } => join(
                name,
                "  Select second line to make parallel:",
            ),
            Step::Location { .. } => join(name, "  Specify dimension line location:"),
            Step::Value { .. } => join(
                &join3(
                    &join3(name, "  Enter value or name and value <", &self.default_name),
                    "=",
                    &self.measured,
                ),
                ">:",
            ),
        }
    }
}

impl DimConstraintCommand {
    /// The choices that the user is offered.
    pub fn options(&self) -> (result: Vec<CmdOption>)
        ensures
            offered(result@) == choices(self.axis, self.step),
    {
        let mut options: Vec<CmdOption> = Vec::new();
        match self.step {
            Step::First => {
                options.push(CmdOption { label: "Object", keyword: "O" });
                if self.axis == DimConstraintAxis::Aligned {
                    options.push(CmdOption { label: "Point & line", keyword: "P" });
                    options.push(CmdOption { label: "2Lines", keyword: "2L" });
                    proof {
                        assert(offered(options@) =~= seq![
                            ("Object"@, "O"@),
                            ("Point & line"@, "P"@),
                            ("2Lines"@, "2L"@),
                        ]);
                    }
                } else {
                    proof {
                        assert(offered(options@) =~= seq![("Object"@, "O"@)]);
                    }
                }
            },
            Step::PointLinePoint => {
                options.push(CmdOption { label: "Line", keyword: "L" });
                proof {
                    assert(offered(options@) =~= seq![("Line"@, "L"@)]);
                }
            },
            _ => {
                proof {
                    assert(offered(options@) =~= Seq::empty());
                }
            },
        }
        options
    }

    /// The user may type at every step.
    pub fn wants_text_input(&self) -> (result: bool)
        ensures
            result,
    {
        true
    }

    /// A pick of an object may also be a point.
    pub fn entity_pick_accepts_points(&self) -> (result: bool)
        ensures
            result,
    {
        true
    }

    /// A typed point picks the object there.
    pub fn typed_point_picks_entity(&self) -> (result: bool)
        ensures
            result,
    {
        true
    }

    /// The object under the cursor is highlighted.
    pub fn entity_pick_highlights_hover(&self) -> (result: bool)
        ensures
            result,
    {
        true
    }

    /// The application hands the object over before it reports the pick.
    pub fn inject_before_entity_pick(&self) -> (result: bool)
        ensures
            result,
    {
        true
    }

    /// Whether the step takes keywords or a value besides a point.
    pub fn point_step_accepts_keywords(&self) -> (result: bool)
        ensures
            result == takes_keywords(self.step),
    {
        match self.step {
            Step::First | Step::PointLinePoint | Step::Value { .. } => true,
            _ => false,
        }
    }

    /// Whether the step takes an entity.
    pub fn needs_entity_pick(&self) -> (result: bool)
        ensures
            result == takes_entity(self.step),
    {
        match self.step {
            Step::TwoLinesParallel { .. } | Step::Location { .. } | Step::Value { .. } => false,
            _ => true,
        }
    }

    /// Takes the object that is about to be picked.
    pub fn inject_picked_entity(&mut self, entity: PickedEntity)
        ensures
            *final(self) == (DimConstraintCommand {
                picked_entity: Some(entity),
                ..*old(self)
            }),
    {
        self.picked_entity = Some(entity);
    }

    fn build(&self, name: String, expression: String) -> (result: Option<CmdResult>)
        ensures
            request_view(result) == build_view(self.axis, self.step, name@, expression@),
    {
        match self.step {
            Step::Value { ends, location, axis, kind } => {
                if is_blank(&expression) {
                    return None;
                }
                let found = DimensionalConstraint {
                    kind,
                    first: ends.first,
                    second: ends.second,
                    first_point: ends.first_point,
                    second_point: ends.second_point,
                    location,
                    axis,
                    direction: match ends.direction {
                        Some(line) => Some(line.line),
                        None => None,
                    },
                };
                Some(
                    CmdResult::AddDimensionalConstraint(
                        found,
                        name,
                        expression,
                        self.label().to_owned(),
                    ),
                )
            },
            _ => None,
        }
    }

    /// Takes what the user typed.
    pub fn on_text_input(&mut self, text: &str) -> (result: Option<CmdResult>)
        ensures
            (final(self).step, request_view(result)) == after_text(
                old(self).axis,
                old(self).step,
                text@,
                old(self).default_name@,
            ),
            final(self).continues(*old(self)),
            final(self).picked_entity == old(self).picked_entity,
            final(self).measured == old(self).measured,
    {
        let typed = trim(text);
        let word = strip_marks(typed);
        match self.step {
            Step::First => {
                let aligned = self.axis == DimConstraintAxis::Aligned;
                if is_alike(word, "O") || is_alike(word, "OBJECT") {
                    self.step = Step::Object;
                } else if aligned && (is_alike(word, "P") || is_alike(word, "POINT") || is_alike(
                    word,
                    "POINT & LINE",
                ) || is_alike(word, "POINT&LINE")) {
                    self.step = Step::PointLinePoint;
                } else if aligned && (is_alike(word, "2L") || is_alike(word, "2LINES")) {
                    self.step = Step::TwoLinesFirst;
                } else {
                    return None;
                }
                Some(CmdResult::NeedPoint)
            },
            Step::PointLinePoint => {
                if is_alike(word, "L") || is_alike(word, "LINE") {
                    self.step = Step::LineFirst;
                    return Some(CmdResult::NeedPoint);
                }
                None
            },
            Step::Value { .. } => {
                let length: usize = typed.unicode_len();
                match find_equals(typed) {
                    Some(i) => self.build(
                        trim(typed.substring_char(0, i)).to_owned(),
                        trim(typed.substring_char(i + 1, length)).to_owned(),
                    ),
                    None => self.build(self.default_name.clone(), typed.to_owned()),
                }
            },
            _ => None,
        }
    }

    /// The line at a pick, or the request where there is none.
    fn pick_line(&mut self, handle: Handle, geometry: &PickGeometry) -> (result: Result<
        LineTarget,
        CmdResult,
    >)
        ensures
            match (
                result,
                picked_line(old(self).picked_entity, handle, *geometry),
            ) {
                (Ok(line), Ok(expected)) => line == expected,
                (Err(request), Err(expected)) => request@ == expected,
                _ => false,
            },
            final(self).continues(*old(self)),
            final(self).step == old(self).step,
            final(self).measured == old(self).measured,
            final(self).picked_entity == (if handle.null() {
                old(self).picked_entity
            } else {
                None
            }),
    {
        if handle.is_null() {
            return Err(report(Self::NO_OBJECT));
        }
        match self.picked_entity.take() {
            None => Err(CmdResult::NeedPoint),
            Some(entity) => match entity.line(handle, geometry) {
                Some(line) => Ok(line),
                None => Err(
                    report(
                        Self::INVALID_LINE,
                    ),
                ),
            },
        }
    }

    /// Takes an entity that was picked. `geometry` is what the engine finds at
    /// the pick. Where the command waits for a place or a value, a pick is but a
    /// point: `survey` is what the engine measures for it.
    pub fn on_entity_pick(
        &mut self,
        handle: Handle,
        point: Vector3,
        geometry: &PickGeometry,
        survey: &Survey,
    ) -> (result: CmdResult)
        ensures
            (final(self).step, result@) == after_entity_pick(
                old(self).axis,
                old(self).step,
                old(self).picked_entity,
                handle,
                point,
                *geometry,
                *survey,
            ),
            final(self).continues(*old(self)),
            final(self).picked_entity == (if uses_object(old(self).step, handle) {
                None
            } else {
                old(self).picked_entity
            }),
            final(self).measured@ == measured_after(
                old(self).axis,
                old(self).step,
                *survey,
                old(self).measured@,
            ),
    {
        match self.step {
            Step::First | Step::Second { .. } | Step::PointLinePoint | Step::LinePoint { .. } => {
                CmdResult::CheckConstraintPoint(
                    if handle.is_null() {
                        None
                    } else {
                        Some(handle)
                    },
                    point,
                )
            },
            Step::PointLineLine { point: first, point_pos } => match self.pick_line(
                handle,
                geometry,
            ) {
                Err(request) => request,
                Ok(line) => {
                    if line.line.entity == first.entity {
                        return report(
                            Self::SAME_POINT,
                        );
                    }
                    let end = line.nearest_end(geometry.distances);
                    self.step = Step::Location {
                        ends: Measured {
                            first,
                            second: end.reference,
                            first_point: point_pos,
                            second_point: end.position,
                            direction: Some(line),
                        },
                    };
                    CmdResult::NeedPoint
                },
            },
            Step::LineFirst => match self.pick_line(handle, geometry) {
                Err(request) => request,
                Ok(line) => {
                    self.step = Step::LinePoint { line };
                    CmdResult::NeedPoint
                },
            },
            Step::TwoLinesFirst => match self.pick_line(handle, geometry) {
                Err(request) => request,
                Ok(line) => {
                    self.step = Step::TwoLinesSecond { line };
                    CmdResult::NeedPoint
                },
            },
            Step::TwoLinesSecond { line: first_line } => match self.pick_line(handle, geometry) {
                Err(request) => request,
                Ok(second_line) => {
                    if second_line.line == first_line.line {
                        return report(
                            Self::SAME_POINT,
                        );
                    }
                    self.step = Step::TwoLinesParallel { first_line, second_line, pick: point };
                    let first_ends = [
                        first_line.first_end.reference,
                        first_line.second_end.reference,
                    ];
                    let second_ends = [
                        second_line.first_end.reference,
                        second_line.second_end.reference,
                    ];
                    proof {
                        assert(first_ends@ =~= seq![
                            first_line.first_end.reference,
                            first_line.second_end.reference,
                        ]);
                        assert(second_ends@ =~= seq![
                            second_line.first_end.reference,
                            second_line.second_end.reference,
                        ]);
                    }
                    CmdResult::MakeParallel(
                        first_line.line,
                        first_ends,
                        second_line.line,
                        second_ends,
                    )
                },
            },
            Step::TwoLinesParallel { .. } => CmdResult::NeedPoint,
            Step::Object => {
                if handle.is_null() {
                    return report(Self::NO_OBJECT);
                }
                let entity = match self.picked_entity.take() {
                    Some(entity) => entity,
                    None => {
                        return CmdResult::NeedPoint;
                    },
                };
                let (first, second) = match entity.ends(geometry.segment) {
                    Some(ends) => ends,
                    None => {
                        return report(
                            &join3(
                                "Invalid selection for ",
                                self.noun_of(),
                                ". Select a line, polyline segment or arc.",
                            ),
                        );
                    },
                };
                match (entity.resolve(first), entity.resolve(second)) {
                    (Some(first_point), Some(second_point)) => {
                        self.step = Step::Location {
                            ends: Measured {
                                first: ParametricRef { entity: handle, part: Part::Point(first) },
                                second: ParametricRef { entity: handle, part: Part::Point(second) },
                                first_point,
                                second_point,
                                direction: None,
                            },
                        };
                        CmdResult::NeedPoint
                    },
                    _ => report(Self::NO_POINT),
                }
            },
            Step::Location { .. } | Step::Value { .. } => self.on_point(point, survey),
        }
    }

    /// Takes the ends of the second line, which the application made parallel.
    /// `direction` is its unit direction, and the distances are those of its ends
    /// from the two ends of the first line, and of the ends of the first line from
    /// the pick.
    pub fn accept_parallel_line(
        &mut self,
        first_end: LineEnd,
        second_end: LineEnd,
        direction: Option<Vector3>,
        from_pick: EndDistances,
        from_first: EndDistances,
        from_second: EndDistances,
    ) -> (result: CmdResult)
        ensures
            (final(self).step, result@) == after_parallel(
                old(self).step,
                first_end,
                second_end,
                direction,
                from_pick,
                from_first,
                from_second,
            ),
            final(self).continues(*old(self)),
            final(self).picked_entity == old(self).picked_entity,
            final(self).measured == old(self).measured,
    {
        match self.step {
            Step::TwoLinesParallel { first_line, second_line, .. } => match direction {
                None => report(Self::NO_POINT),
                Some(dir) => {
                    let solved = LineTarget { line: second_line.line, dir, first_end, second_end };
                    let start = first_line.nearest_end(from_pick);
                    let end = solved.nearest_end(
                        if from_pick.second.lt(from_pick.first) {
                            from_second
                        } else {
                            from_first
                        },
                    );
                    self.step = Step::Location {
                        ends: Measured {
                            first: start.reference,
                            second: end.reference,
                            first_point: start.position,
                            second_point: end.position,
                            direction: Some(first_line),
                        },
                    };
                    CmdResult::NeedPoint
                },
            },
            _ => CmdResult::NeedPoint,
        }
    }

    /// Takes a constraint point that the application found. The distances are
    /// those of the ends of the line from the point, where there is a line.
    pub fn accept_constraint_point(
        &mut self,
        reference: ParametricRef,
        point: Vector3,
        distances: EndDistances,
    ) -> (result: CmdResult)
        ensures
            (final(self).step, result@) == after_constraint_point(
                old(self).step,
                reference,
                point,
                distances,
            ),
            final(self).continues(*old(self)),
            final(self).picked_entity == old(self).picked_entity,
            final(self).measured == old(self).measured,
    {
        match self.step {
            Step::First => {
                self.step = Step::Second { first: reference, first_point: point };
                CmdResult::NeedPoint
            },
            Step::Second { first, first_point } => {
                if first == reference {
                    return report(
                        Self::SAME_POINT,
                    );
                }
                self.step = Step::Location {
                    ends: Measured {
                        first,
                        second: reference,
                        first_point,
                        second_point: point,
                        direction: None,
                    },
                };
                CmdResult::NeedPoint
            },
            Step::PointLinePoint => {
                self.step = Step::PointLineLine { point: reference, point_pos: point };
                CmdResult::NeedPoint
            },
            Step::LinePoint { line } => {
                if line.line.entity == reference.entity {
                    return report(
                        Self::SAME_POINT,
                    );
                }
                let end = line.nearest_end(distances);
                self.step = Step::Location {
                    ends: Measured {
                        first: end.reference,
                        second: reference,
                        first_point: end.position,
                        second_point: point,
                        direction: Some(line),
                    },
                };
                CmdResult::NeedPoint
            },
            _ => CmdResult::NeedPoint,
        }
    }

    /// What is measured, and along which axis.
    fn decide(&self, direction: Option<LineTarget>, survey: &Survey) -> (result: (
        ConstraintKind,
        Vector3,
    ))
        ensures
            result == decision(self.axis, direction, *survey),
    {
        let zero = Scalar { bits: 0 };
        let one = Scalar { bits: ONE_BITS };
        let x = Vector3 { x: one, y: zero, z: zero, length: one };
        let y = Vector3 { x: zero, y: one, z: zero, length: one };
        match direction {
            Some(line) => (
                ConstraintKind::DistanceDirected,
                Vector3 {
                    x: line.dir.y,
                    y: line.dir.x.negate(),
                    z: zero,
                    length: line.dir.length,
                },
            ),
            None => match self.axis {
                DimConstraintAxis::Linear => if survey.runs_horizontally {
                    (ConstraintKind::DistanceX, x)
                } else {
                    (ConstraintKind::DistanceY, y)
                },
                DimConstraintAxis::Horizontal => (ConstraintKind::DistanceX, x),
                DimConstraintAxis::Vertical => (ConstraintKind::DistanceY, y),
                DimConstraintAxis::Aligned => (ConstraintKind::Distance, survey.aligned_axis),
            },
        }
    }

    /// Takes a point that was picked. `survey` is what the engine measures where
    /// the point places the dimension line.
    pub fn on_point(&mut self, point: Vector3, survey: &Survey) -> (result: CmdResult)
        ensures
            (final(self).step, result@) == after_point(
                old(self).axis,
                old(self).step,
                point,
                *survey,
            ),
            final(self).continues(*old(self)),
            final(self).picked_entity == old(self).picked_entity,
            final(self).measured@ == measured_after(
                old(self).axis,
                old(self).step,
                *survey,
                old(self).measured@,
            ),
    {
        match self.step {
            Step::First | Step::Second { .. } | Step::PointLinePoint | Step::LinePoint { .. } => {
                CmdResult::CheckConstraintPoint(None, point)
            },
            Step::Object
            | Step::PointLineLine { .. }
            | Step::LineFirst
            | Step::TwoLinesFirst
            | Step::TwoLinesSecond { .. } => report(Self::NO_OBJECT),
            Step::Location { ends } => {
                let (kind, axis) = self.decide(ends.direction, survey);
                let measured = match kind {
                    ConstraintKind::DistanceX => &survey.across,
                    ConstraintKind::DistanceY => &survey.up,
                    ConstraintKind::DistanceDirected => &survey.directed,
                    ConstraintKind::Distance => &survey.between,
                };
                self.step = Step::Value { ends, location: point, axis, kind };
                self.measured = measured.expression.clone();
                CmdResult::ReportMeasurement(join("Dimension text = ", &measured.text))
            },
            Step::TwoLinesParallel { .. } | Step::Value { .. } => CmdResult::NeedPoint,
        }
    }

    /// Takes the Enter key.
    pub fn on_enter(&mut self) -> (result: CmdResult)
        ensures
            (final(self).step, result@) == after_enter(
                old(self).axis,
                old(self).step,
                old(self).default_name@,
                old(self).measured@,
            ),
            final(self).continues(*old(self)),
            final(self).picked_entity == old(self).picked_entity,
            final(self).measured == old(self).measured,
    {
        match self.step {
            Step::First => {
                self.step = Step::Object;
                CmdResult::NeedPoint
            },
            Step::PointLinePoint => {
                self.step = Step::LineFirst;
                CmdResult::NeedPoint
            },
            Step::Value { .. } => match self.build(
                self.default_name.clone(),
                self.measured.clone(),
            ) {
                Some(request) => request,
                None => CmdResult::Cancel,
            },
            _ => CmdResult::Cancel,
        }
    }

    /// Takes the Escape key, which always ends the command.
    pub fn on_escape(&mut self) -> (result: CmdResult)
        ensures
            result@ == ResultView::Cancel,
            *final(self) == *old(self),
    {
        CmdResult::Cancel
    }
}

/// The command that a keyword of the menu stands for.
pub open spec fn menu_command(word: Seq<char>) -> Option<Seq<char>> {
    if alike(word, "L"@) || alike(word, "LINEAR"@) {
        Some("DCLINEAR"@)
    } else if alike(word, "H"@) || alike(word, "HORIZONTAL"@) {
        Some("DCHORIZONTAL"@)
    } else if alike(word, "V"@) || alike(word, "VERTICAL"@) {
        Some("DCVERTICAL"@)
    } else if alike(word, "A"@) || alike(word, "ALIGNED"@) {
        Some("DCALIGNED"@)
    } else if alike(word, "AN"@) || alike(word, "ANGULAR"@) {
        Some("DCANGULAR"@)
    } else if alike(word, "R"@) || alike(word, "RADIAL"@) || alike(word, "RADIUS"@) {
        Some("DCRADIUS"@)
    } else if alike(word, "D"@) || alike(word, "DIAMETER"@) {
        Some("DCDIAMETER"@)
    } else if alike(word, "C"@) || alike(word, "CONVERT"@) {
        Some("DCCONVERT"@)
    } else {
        None
    }
}

/// The choices that the menu offers.
pub open spec fn menu_choices() -> Seq<(Seq<char>, Seq<char>)> {
    seq![
        ("Linear"@, "L"@),
        ("Horizontal"@, "H"@),
        ("Vertical"@, "V"@),
        ("Aligned"@, "A"@),
        ("ANgular"@, "AN"@),
        ("Radial"@, "R"@),
        ("Diameter"@, "D"@),
        ("Convert"@, "C"@),
    ]
}

/// The command that Enter stands for in the menu.
pub open spec fn menu_default() -> Seq<char> {
    "DCALIGNED"@
}

/// The menu of the dimensional constraint commands.
pub struct DimConstraintMenuCommand;

impl DimConstraintMenuCommand {
    pub fn name(&self) -> (result: &'static str)
        ensures
            result@ == "DIMCONSTRAINT"@,
    {
        "DIMCONSTRAINT"
    }

    pub fn prompt(&self) -> (result: String)
        ensures
            result@
                == "DIMCONSTRAINT  Enter dimensional constraint option [Linear/Horizontal/Vertical/Aligned/ANgular/Radial/Diameter/Convert] <Aligned>:"@,
    {
        "DIMCONSTRAINT  Enter dimensional constraint option [Linear/Horizontal/Vertical/Aligned/ANgular/Radial/Diameter/Convert] <Aligned>:".to_owned()
    }

    /// The user may type a choice.
    pub fn wants_text_input(&self) -> (result: bool)
        ensures
            result,
    {
        true
    }

    /// The choices that the user is offered.
    pub fn options(&self) -> (result: Vec<CmdOption>)
        ensures
            offered(result@) == menu_choices(),
    {
        let mut options: Vec<CmdOption> = Vec::new();
        options.push(CmdOption { label: "Linear", keyword: "L" });
        options.push(CmdOption { label: "Horizontal", keyword: "H" });
        options.push(CmdOption { label: "Vertical", keyword: "V" });
        options.push(CmdOption { label: "Aligned", keyword: "A" });
        options.push(CmdOption { label: "ANgular", keyword: "AN" });
        options.push(CmdOption { label: "Radial", keyword: "R" });
        options.push(CmdOption { label: "Diameter", keyword: "D" });
        options.push(CmdOption { label: "Convert", keyword: "C" });
        proof {
            assert(offered(options@) =~= seq![
                ("Linear"@, "L"@),
                ("Horizontal"@, "H"@),
                ("Vertical"@, "V"@),
                ("Aligned"@, "A"@),
                ("ANgular"@, "AN"@),
                ("Radial"@, "R"@),
                ("Diameter"@, "D"@),
                ("Convert"@, "C"@),
            ]);
        }
        options
    }

    /// The command that a keyword stands for.
    fn dispatch(word: &str) -> (result: Option<&'static str>)
        ensures
            match (result, menu_command(word@)) {
                (Some(command), Some(expected)) => command@ == expected,
                (None, None) => true,
                _ => false,
            },
    {
        if is_alike(word, "L") || is_alike(word, "LINEAR") {
            Some("DCLINEAR")
        } else if is_alike(word, "H") || is_alike(word, "HORIZONTAL") {
            Some("DCHORIZONTAL")
        } else if is_alike(word, "V") || is_alike(word, "VERTICAL") {
            Some("DCVERTICAL")
        } else if is_alike(word, "A") || is_alike(word, "ALIGNED") {
            Some("DCALIGNED")
        } else if is_alike(word, "AN") || is_alike(word, "ANGULAR") {
            Some("DCANGULAR")
        } else if is_alike(word, "R") || is_alike(word, "RADIAL") || is_alike(word, "RADIUS") {
            Some("DCRADIUS")
        } else if is_alike(word, "D") || is_alike(word, "DIAMETER") {
            Some("DCDIAMETER")
        } else if is_alike(word, "C") || is_alike(word, "CONVERT") {
            Some("DCCONVERT")
        } else {
            None
        }
    }

    /// Takes what the user typed: the command to run, or none where it means
    /// nothing.
    pub fn on_text_input(&mut self, text: &str) -> (result: Option<CmdResult>)
        ensures
            request_view(result) == (match menu_command(keyword(text@)) {
                Some(command) => Some(ResultView::Dispatch(command)),
                None => None,
            }),
    {
        match Self::dispatch(strip_marks(trim(text))) {
            Some(command) => Some(CmdResult::Dispatch(command.to_owned())),
            None => None,
        }
    }

    /// A point means nothing to the menu.
    pub fn on_point(&mut self, _point: Vector3) -> (result: CmdResult)
        ensures
            result@ == ResultView::NeedPoint,
    {
        CmdResult::NeedPoint
    }

    /// Takes the Enter key, which stands for the aligned constraint.
    pub fn on_enter(&mut self) -> (result: CmdResult)
        ensures
            result@ == ResultView::Dispatch(menu_default()),
    {
        CmdResult::Dispatch("DCALIGNED".to_owned())
    }

    /// Takes the Escape key, which ends the menu.
    pub fn on_escape(&mut self) -> (result: CmdResult)
        ensures
            result@ == ResultView::Cancel,
    {
        CmdResult::Cancel
    }
}

} // verus!
