//! How the dimensional constraint commands go from picks to a constraint.

use crate::command::{
    ConstraintKind, DimensionalConstraint, LineEnd, ParametricRef, Part, ResultView,
};
use crate::dim_constraint::{
    after_constraint_point, after_enter, after_entity_pick, after_parallel, after_pick, after_point,
    after_text, choices, command_name, constraint_label, keyword, line_between, line_target,
    measured_after, menu_choices, menu_command, menu_default, name_and_value, noun, prompt_text,
    takes_entity, takes_keywords, unmarked, uses_object, DimConstraintAxis, DimConstraintCommand,
    EndDistances, LineTarget, Measured, PickGeometry, PickedEntity, Reading, Step, Survey,
};
use crate::geometry::{Handle, Vector3};
use crate::plain::{lower, order_in_plain_terms, plain_number, size, text_in_plain_terms, written};
use crate::search::{seek, seek_finds};
use crate::text::{alike, ascii_lower, space, trimmed, trimming_is_done};
use vstd::prelude::*;
use vstd::string::*;

verus! {

/// The coordinates of a vector, bit by bit.
pub open spec fn points_along(v: Vector3, x: u64, y: u64, z: u64) -> bool {
    v.x.bits == x && v.y.bits == y && v.z.bits == z
}

/// What placing the dimension line comes to: the two ends stay, the line is where it
/// was put, a kind is measured along an axis, and the user is told the reading, whose
/// expression the command keeps.
pub open spec fn measures(
    axis: DimConstraintAxis,
    ends: Measured,
    point: Vector3,
    survey: Survey,
    kind: ConstraintKind,
    reading: Reading,
) -> bool {
    let (step, request) = after_point(axis, Step::Location { ends }, point, survey);
    &&& step matches Step::Value { ends: kept, location, axis: _, kind: found } && kept == ends
        && location == point && found == kind
    &&& request == ResultView::ReportMeasurement("Dimension text = "@ + reading.text@)
    &&& forall|before: Seq<char>| #[trigger]
        measured_after(axis, Step::Location { ends }, survey, before) == reading.expression@
}

/// A horizontal constraint between two points measures the distance along X, and a
/// vertical one along Y, wherever the dimension line is.
pub proof fn fixed_axes_are_measured(ends: Measured, point: Vector3, survey: Survey)
    requires
        ends.direction is None,
    ensures
        measures(
            DimConstraintAxis::Horizontal,
            ends,
            point,
            survey,
            ConstraintKind::DistanceX,
            survey.across,
        ),
        points_along(
            after_point(DimConstraintAxis::Horizontal, Step::Location { ends }, point, survey).0->axis,
            0x3ff0_0000_0000_0000,
            0,
            0,
        ),
        measures(
            DimConstraintAxis::Vertical,
            ends,
            point,
            survey,
            ConstraintKind::DistanceY,
            survey.up,
        ),
        points_along(
            after_point(DimConstraintAxis::Vertical, Step::Location { ends }, point, survey).0->axis,
            0,
            0x3ff0_0000_0000_0000,
            0,
        ),
{
}

/// A linear constraint is the horizontal one or the vertical one, as the dimension
/// line runs.
pub proof fn linear_follows_the_line(ends: Measured, point: Vector3, survey: Survey)
    requires
        ends.direction is None,
    ensures
        after_point(DimConstraintAxis::Linear, Step::Location { ends }, point, survey)
            == after_point(
            if survey.runs_horizontally {
                DimConstraintAxis::Horizontal
            } else {
                DimConstraintAxis::Vertical
            },
            Step::Location { ends },
            point,
            survey,
        ),
        survey.runs_horizontally ==> measures(
            DimConstraintAxis::Linear,
            ends,
            point,
            survey,
            ConstraintKind::DistanceX,
            survey.across,
        ),
        !survey.runs_horizontally ==> measures(
            DimConstraintAxis::Linear,
            ends,
            point,
            survey,
            ConstraintKind::DistanceY,
            survey.up,
        ),
{
}

/// An aligned constraint between two points measures the distance between them along
/// the direction from one to the other.
pub proof fn aligned_measures_between(ends: Measured, point: Vector3, survey: Survey)
    requires
        ends.direction is None,
    ensures
        measures(
            DimConstraintAxis::Aligned,
            ends,
            point,
            survey,
            ConstraintKind::Distance,
            survey.between,
        ),
        after_point(DimConstraintAxis::Aligned, Step::Location { ends }, point, survey).0->axis
            == survey.aligned_axis,
{
}

/// A distance from a line is measured across it, whatever the command: the axis is
/// the direction of the line, turned by a right angle.
pub proof fn line_is_measured_across(
    axis: DimConstraintAxis,
    ends: Measured,
    point: Vector3,
    survey: Survey,
)
    requires
        ends.direction is Some,
    ensures
        measures(axis, ends, point, survey, ConstraintKind::DistanceDirected, survey.directed),
        ({
            let along = ends.direction->Some_0.dir;
            let across = after_point(axis, Step::Location { ends }, point, survey).0->axis;
            &&& across.x == along.y
            &&& size(across.y) == size(along.x)
            &&& (across.y.bits >= 0x8000_0000_0000_0000) != (along.x.bits
                >= 0x8000_0000_0000_0000)
            &&& across.z.bits == 0
        }),
{
    let along = ends.direction->Some_0.dir;
    plain_number(along.x);
    plain_number(along.x.opposite());
}

/// Once a constraint has a value, Enter adds it under the name that is kept free and
/// with the value that was measured, between the two ends and at the place that were
/// settled. Typed text can give another name and another value.
pub proof fn constraint_is_added(
    axis: DimConstraintAxis,
    ends: Measured,
    location: Vector3,
    along: Vector3,
    kind: ConstraintKind,
    default_name: Seq<char>,
    measured: Seq<char>,
    text: Seq<char>,
)
    ensures
        ({
            let step = Step::Value { ends, location, axis: along, kind };
            let found = DimensionalConstraint {
                kind,
                first: ends.first,
                second: ends.second,
                first_point: ends.first_point,
                second_point: ends.second_point,
                location,
                axis: along,
                direction: if ends.direction is Some {
                    Some(ends.direction->Some_0.line)
                } else {
                    None
                },
            };
            let (name, value) = name_and_value(text, default_name);
            &&& after_enter(axis, step, default_name, measured).0 == step
            &&& written(measured) ==> after_enter(axis, step, default_name, measured).1
                == ResultView::AddDimensionalConstraint(
                found,
                default_name,
                measured,
                constraint_label(axis),
            )
            &&& !written(measured) ==> after_enter(axis, step, default_name, measured).1
                == ResultView::Cancel
            &&& after_text(axis, step, text, default_name).0 == step
            &&& written(value) ==> after_text(axis, step, text, default_name).1 == Some(
                ResultView::AddDimensionalConstraint(found, name, value, constraint_label(axis)),
            )
            &&& !written(value) ==> after_text(axis, step, text, default_name).1 is None
        }),
{
    text_in_plain_terms();
}

/// Text without an equals sign is the value, and the name is the one that is kept
/// free. Text with one is a name and a value: what stands before the first equals
/// sign and what stands behind it, without the white space around them.
pub proof fn name_stands_before_the_sign(
    text: Seq<char>,
    default_name: Seq<char>,
    name: Seq<char>,
    value: Seq<char>,
)
    ensures
        (forall|i: int| 0 <= i < trimmed(text).len() ==> (#[trigger] trimmed(text)[i]) != '=')
            ==> name_and_value(text, default_name) == (default_name, trimmed(text)),
        trimmed(text) == name.push('=') + value && (forall|i: int|
            0 <= i < name.len() ==> (#[trigger] name[i]) != '=') ==> name_and_value(
            text,
            default_name,
        ) == (trimmed(name), trimmed(value)),
{
    let typed = trimmed(text);
    let sign = crate::dim_constraint::equals_sign();
    seek_finds(typed, 0, sign);
    if typed == name.push('=') + value && (forall|i: int|
        0 <= i < name.len() ==> (#[trigger] name[i]) != '=') {
        let at = name.len() as int;
        assert(typed[at] == '=');
        assert(sign(typed[at]));
        let i = seek(typed, 0, sign)->Some_0;
        if i < at {
            assert(typed[i] == name[i]);
        }
        assert(i == at);
        assert(typed.subrange(0, at) =~= name);
        assert(typed.subrange(at + 1, typed.len() as int) =~= value);
    }
}

/// Two constraint points, one after the other, are the two ends of the distance. The
/// same point twice is refused, and the command waits on.
pub proof fn two_points_are_the_ends(
    first: ParametricRef,
    first_point: Vector3,
    second: ParametricRef,
    second_point: Vector3,
    distances: EndDistances,
)
    ensures
        after_constraint_point(Step::First, first, first_point, distances) == (
            Step::Second { first, first_point },
            ResultView::NeedPoint,
        ),
        first != second ==> after_constraint_point(
            Step::Second { first, first_point },
            second,
            second_point,
            distances,
        ) == (
            Step::Location {
                ends: Measured { first, second, first_point, second_point, direction: None },
            },
            ResultView::NeedPoint,
        ),
        first == second ==> after_constraint_point(
            Step::Second { first, first_point },
            second,
            second_point,
            distances,
        ) == (
            Step::Second { first, first_point },
            ResultView::ReportError(DimConstraintCommand::SAME_POINT@),
        ),
{
}

/// The end of a line that is nearer to a point is the one at the lower distance; the
/// first counts where neither is lower.
pub proof fn nearest_end_is_nearer(line: LineTarget, distances: EndDistances)
    ensures
        line.nearest(distances) == line.first_end || line.nearest(distances) == line.second_end,
        lower(distances.second, distances.first) ==> line.nearest(distances) == line.second_end,
        !lower(distances.second, distances.first) ==> line.nearest(distances) == line.first_end,
{
    order_in_plain_terms();
}

/// A constraint point and a line, in either order: the distance runs between the
/// point and the nearer end of the line, across the line. A line of the same entity
/// is refused.
pub proof fn point_and_line_are_the_ends(
    axis: DimConstraintAxis,
    point: ParametricRef,
    place: Vector3,
    line: LineTarget,
    distances: EndDistances,
)
    ensures
        after_constraint_point(Step::PointLinePoint, point, place, distances) == (
            Step::PointLineLine { point, point_pos: place },
            ResultView::NeedPoint,
        ),
        line.line.entity != point.entity ==> after_constraint_point(
            Step::LinePoint { line },
            point,
            place,
            distances,
        ) == (
            Step::Location {
                ends: Measured {
                    first: line.nearest(distances).reference,
                    second: point,
                    first_point: line.nearest(distances).position,
                    second_point: place,
                    direction: Some(line),
                },
            },
            ResultView::NeedPoint,
        ),
        line.line.entity == point.entity ==> after_constraint_point(
            Step::LinePoint { line },
            point,
            place,
            distances,
        ) == (
            Step::LinePoint { line },
            ResultView::ReportError(DimConstraintCommand::SAME_POINT@),
        ),
{
}

/// What a pick of a line comes to at each step that waits for one.
pub proof fn picked_line_is_taken(
    axis: DimConstraintAxis,
    entity: PickedEntity,
    handle: Handle,
    point: Vector3,
    geometry: PickGeometry,
    line: LineTarget,
    first: ParametricRef,
    place: Vector3,
    other: LineTarget,
)
    requires
        handle.value != 0,
        line_target(entity, handle, geometry) == Some(line),
    ensures
        after_pick(axis, Step::LineFirst, Some(entity), handle, point, geometry) == (
            Step::LinePoint { line },
            ResultView::NeedPoint,
        ),
        after_pick(axis, Step::TwoLinesFirst, Some(entity), handle, point, geometry) == (
            Step::TwoLinesSecond { line },
            ResultView::NeedPoint,
        ),
        after_pick(
            axis,
            Step::PointLineLine { point: first, point_pos: place },
            Some(entity),
            handle,
            point,
            geometry,
        ) == (if handle == first.entity {
            (
                Step::PointLineLine { point: first, point_pos: place },
                ResultView::ReportError(DimConstraintCommand::SAME_POINT@),
            )
        } else {
            (
                Step::Location {
                    ends: Measured {
                        first,
                        second: line.nearest(geometry.distances).reference,
                        first_point: place,
                        second_point: line.nearest(geometry.distances).position,
                        direction: Some(line),
                    },
                },
                ResultView::NeedPoint,
            )
        }),
        ({
            let step = Step::TwoLinesSecond { line: other };
            let (next, request) = after_pick(axis, step, Some(entity), handle, point, geometry);
            if line.line == other.line {
                next == step && request == ResultView::ReportError(
                    DimConstraintCommand::SAME_POINT@,
                )
            } else {
                next == (Step::TwoLinesParallel {
                    first_line: other,
                    second_line: line,
                    pick: point,
                }) && request == ResultView::MakeParallel(
                    other.line,
                    seq![other.first_end.reference, other.second_end.reference],
                    line.line,
                    seq![line.first_end.reference, line.second_end.reference],
                )
            }
        }),
        line.line.entity == handle,
{
}

/// A step that waits for a line or an object takes none without one: it says that
/// there is no object, waits for the application to hand one over, or says that the
/// object has no line. The step stays.
pub proof fn missing_line_is_reported(
    axis: DimConstraintAxis,
    step: Step,
    entity: Option<PickedEntity>,
    handle: Handle,
    point: Vector3,
    geometry: PickGeometry,
)
    requires
        step is LineFirst || step is TwoLinesFirst || step is TwoLinesSecond
            || step is PointLineLine,
    ensures
        handle.value == 0 ==> after_pick(axis, step, entity, handle, point, geometry) == (
            step,
            ResultView::ReportError(DimConstraintCommand::NO_OBJECT@),
        ),
        handle.value != 0 && entity is None ==> after_pick(
            axis,
            step,
            entity,
            handle,
            point,
            geometry,
        ) == (step, ResultView::NeedPoint),
        handle.value != 0 && entity is Some && line_target(
            entity->Some_0,
            handle,
            geometry,
        ) is None ==> after_pick(axis, step, entity, handle, point, geometry) == (
            step,
            ResultView::ReportError(DimConstraintCommand::INVALID_LINE@),
        ),
{
}

/// A line is a line as a whole, from its first point to its second, or the segment of
/// a polyline that was picked, from its point to the next; the last segment ends at
/// the first point. It has a direction, and no other object has a line.
pub proof fn line_runs_between_its_points(
    entity: PickedEntity,
    handle: Handle,
    geometry: PickGeometry,
)
    ensures
        ({
            let count = entity.points@.len();
            let found = line_target(entity, handle, geometry);
            &&& entity.kind is Line ==> (found is Some <==> count >= 2 && geometry.direction is Some)
            &&& entity.kind is Line && found is Some ==> {
                &&& found->Some_0.line == (ParametricRef { entity: handle, part: Part::Whole })
                &&& found->Some_0.first_end.position == entity.points@[0]
                &&& found->Some_0.second_end.position == entity.points@[1]
                &&& found->Some_0.first_end.reference.part == Part::Point(0)
                &&& found->Some_0.second_end.reference.part == Part::Point(1)
            }
            &&& entity.kind is Polyline ==> (found is Some <==> geometry.segment is Some && 0
                <= geometry.segment->Some_0 < count && geometry.direction is Some)
            &&& entity.kind is Polyline && found is Some ==> {
                let i = geometry.segment->Some_0 as int;
                let next = if i + 1 < count {
                    i + 1
                } else {
                    0
                };
                &&& found->Some_0.line == (ParametricRef {
                    entity: handle,
                    part: Part::Segment(i as i64),
                })
                &&& found->Some_0.first_end.position == entity.points@[i]
                &&& found->Some_0.second_end.position == entity.points@[next]
                &&& found->Some_0.first_end.reference.part == Part::Point(i as i64)
                &&& found->Some_0.second_end.reference.part == Part::Point(next as i64)
            }
            &&& entity.kind is Arc || entity.kind is Other ==> found is None
            &&& found is Some ==> {
                &&& Some(found->Some_0.dir) == geometry.direction
                &&& found->Some_0.first_end.reference.entity == handle
                &&& found->Some_0.second_end.reference.entity == handle
                &&& line_between(entity, geometry.segment) == Some(
                    (found->Some_0.first_end.position, found->Some_0.second_end.position),
                )
            }
        }),
{
}

/// Picking an object constrains its two ends: those of a line or an arc, or those of
/// the segment of a polyline that was picked.
pub proof fn object_gives_its_ends(
    axis: DimConstraintAxis,
    entity: PickedEntity,
    handle: Handle,
    point: Vector3,
    geometry: PickGeometry,
)
    requires
        handle.value != 0,
    ensures
        ({
            let count = entity.points@.len();
            let (next, request) = after_pick(
                axis,
                Step::Object,
                Some(entity),
                handle,
                point,
                geometry,
            );
            &&& (entity.kind is Line || entity.kind is Arc) && count >= 2 ==> {
                &&& request == ResultView::NeedPoint
                &&& next matches Step::Location { ends } && ends.first.part == Part::Point(0)
                    && ends.second.part == Part::Point(1) && ends.first.entity == handle
                    && ends.second.entity == handle && ends.first_point == entity.points@[0]
                    && ends.second_point == entity.points@[1] && ends.direction is None
            }
            &&& (entity.kind is Line || entity.kind is Arc) && count < 2 ==> next == Step::Object
                && request == ResultView::ReportError(DimConstraintCommand::NO_POINT@)
            &&& entity.kind is Polyline && geometry.segment is Some && 0
                <= geometry.segment->Some_0 < count ==> {
                let i = geometry.segment->Some_0 as int;
                let end = if i + 1 < count {
                    i + 1
                } else {
                    0
                };
                &&& request == ResultView::NeedPoint
                &&& next matches Step::Location { ends } && ends.first.part == Part::Point(
                    i as i64,
                ) && ends.second.part == Part::Point(end as i64) && ends.first.entity == handle
                    && ends.second.entity == handle && ends.first_point == entity.points@[i]
                    && ends.second_point == entity.points@[end] && ends.direction is None
            }
            &&& entity.kind is Other || (entity.kind is Polyline && geometry.segment is None)
                ==> next == Step::Object && request is ReportError
        }),
        after_pick(axis, Step::Object, None, handle, point, geometry) == (
            Step::Object,
            ResultView::NeedPoint,
        ),
        after_pick(axis, Step::Object, Some(entity), Handle { value: 0 }, point, geometry) == (
            Step::Object,
            ResultView::ReportError(DimConstraintCommand::NO_OBJECT@),
        ),
{
}

/// A pick at a step that waits for a constraint point asks the application for the
/// constraint point there: of the entity that was picked, if any. A point alone asks
/// for it without an entity.
pub proof fn constraint_point_is_asked_for(
    axis: DimConstraintAxis,
    step: Step,
    entity: Option<PickedEntity>,
    handle: Handle,
    point: Vector3,
    geometry: PickGeometry,
    survey: Survey,
)
    requires
        step is First || step is Second || step is PointLinePoint || step is LinePoint,
    ensures
        after_pick(axis, step, entity, handle, point, geometry).0 == step,
        after_pick(axis, step, entity, handle, point, geometry).1
            == ResultView::CheckConstraintPoint(
            if handle.value == 0 {
                None
            } else {
                Some(handle)
            },
            point,
        ),
        after_point(axis, step, point, survey) == (
            step,
            ResultView::CheckConstraintPoint(None, point),
        ),
        !uses_object(step, handle),
{
}

/// A point where an object is wanted is refused, and one where the lines are being
/// made parallel or a value is wanted means nothing.
pub proof fn stray_point_changes_nothing(
    axis: DimConstraintAxis,
    step: Step,
    point: Vector3,
    survey: Survey,
)
    requires
        !(step is First || step is Second || step is PointLinePoint || step is LinePoint
            || step is Location),
    ensures
        after_point(axis, step, point, survey).0 == step,
        after_point(axis, step, point, survey).1 == (if step is TwoLinesParallel || step is Value {
            ResultView::NeedPoint
        } else {
            ResultView::ReportError(DimConstraintCommand::NO_OBJECT@)
        }),
{
}

/// Two lines: the distance runs from the end of the first that is nearer to the
/// pick, to the end of the solved second that is nearer to that end, across the first
/// line. A second line without length is refused.
pub proof fn parallel_lines_are_the_ends(
    first_line: LineTarget,
    second_line: LineTarget,
    pick: Vector3,
    first_end: LineEnd,
    second_end: LineEnd,
    direction: Option<Vector3>,
    from_pick: EndDistances,
    from_first: EndDistances,
    from_second: EndDistances,
)
    ensures
        ({
            let step = Step::TwoLinesParallel { first_line, second_line, pick };
            let (next, request) = after_parallel(
                step,
                first_end,
                second_end,
                direction,
                from_pick,
                from_first,
                from_second,
            );
            let start = if lower(from_pick.second, from_pick.first) {
                first_line.second_end
            } else {
                first_line.first_end
            };
            let distances = if lower(from_pick.second, from_pick.first) {
                from_second
            } else {
                from_first
            };
            let end = if lower(distances.second, distances.first) {
                second_end
            } else {
                first_end
            };
            if direction is None {
                next == step && request == ResultView::ReportError(DimConstraintCommand::NO_POINT@)
            } else {
                request == ResultView::NeedPoint && next == (Step::Location {
                    ends: Measured {
                        first: start.reference,
                        second: end.reference,
                        first_point: start.position,
                        second_point: end.position,
                        direction: Some(first_line),
                    },
                })
            }
        }),
{
    order_in_plain_terms();
}

/// Enter stands for the choice in angle brackets: an object at first, and a line
/// where a point or a line is wanted. At any other step but the last it cancels.
pub proof fn enter_takes_the_default(
    axis: DimConstraintAxis,
    step: Step,
    name: Seq<char>,
    measured: Seq<char>,
)
    requires
        !(step is Value),
    ensures
        after_enter(axis, Step::First, name, measured) == (Step::Object, ResultView::NeedPoint),
        after_enter(axis, Step::PointLinePoint, name, measured) == (
            Step::LineFirst,
            ResultView::NeedPoint,
        ),
        !(step is First || step is PointLinePoint) ==> after_enter(axis, step, name, measured) == (
            step,
            ResultView::Cancel,
        ),
        after_text(axis, Step::First, "O"@, name).0 == after_enter(
            axis,
            Step::First,
            name,
            measured,
        ).0,
        after_text(axis, Step::PointLinePoint, "L"@, name).0 == after_enter(
            axis,
            Step::PointLinePoint,
            name,
            measured,
        ).0,
{
    reveal_strlit("O");
    reveal_strlit("L");
    assert(!space('O') && !space('L'));
    assert(trimmed("O"@) == "O"@);
    assert(trimmed("L"@) == "L"@);
}

/// White space around a keyword, underscores in front of it and the case of its
/// letters do not matter.
pub proof fn keyword_is_read_loosely(
    axis: DimConstraintAxis,
    step: Step,
    text: Seq<char>,
    other: Seq<char>,
    name: Seq<char>,
)
    requires
        step is First || step is PointLinePoint,
        alike(keyword(text), keyword(other)),
    ensures
        after_text(axis, step, text, name) == after_text(axis, step, other, name),
        menu_command(keyword(text)) == menu_command(keyword(other)),
        keyword(trimmed(text)) == keyword(text),
        text.len() > 0 && text[0] == '_' && trimmed(text) == text ==> unmarked(
            text.subrange(1, text.len() as int),
        ) == keyword(text),
{
    trimming_is_done(text);
    assert forall|word: Seq<char>| #[trigger] alike(keyword(text), word) == alike(
        keyword(other),
        word,
    ) by {
        let a = keyword(text);
        let b = keyword(other);
        if alike(a, word) {
            assert forall|i: int| 0 <= i < b.len() implies ascii_lower(#[trigger] b[i])
                == ascii_lower(word[i]) by {
                assert(ascii_lower(a[i]) == ascii_lower(b[i]));
                assert(ascii_lower(a[i]) == ascii_lower(word[i]));
            }
        }
        if alike(b, word) {
            assert forall|i: int| 0 <= i < a.len() implies ascii_lower(#[trigger] a[i])
                == ascii_lower(word[i]) by {
                assert(ascii_lower(a[i]) == ascii_lower(b[i]));
                assert(ascii_lower(b[i]) == ascii_lower(word[i]));
            }
        }
    }
}

/// What the keywords stand for. Only the aligned command knows points with lines and
/// two lines, and a word that is no keyword changes nothing.
pub proof fn keywords_choose_the_way(
    axis: DimConstraintAxis,
    text: Seq<char>,
    name: Seq<char>,
)
    ensures
        ({
            let word = keyword(text);
            let (next, request) = after_text(axis, Step::First, text, name);
            let object = alike(word, "O"@) || alike(word, "OBJECT"@);
            let mixed = alike(word, "P"@) || alike(word, "POINT"@) || alike(word, "POINT & LINE"@)
                || alike(word, "POINT&LINE"@);
            let lines = alike(word, "2L"@) || alike(word, "2LINES"@);
            &&& next is Object <==> object
            &&& next is PointLinePoint <==> axis is Aligned && mixed && !object
            &&& next is TwoLinesFirst <==> axis is Aligned && lines && !mixed && !object
            &&& next is First <==> request is None
            &&& request is Some ==> request == Some(ResultView::NeedPoint)
        }),
        ({
            let word = keyword(text);
            let (next, request) = after_text(axis, Step::PointLinePoint, text, name);
            &&& next is LineFirst <==> alike(word, "L"@) || alike(word, "LINE"@)
            &&& !(next is LineFirst) ==> next is PointLinePoint && request is None
            &&& next is LineFirst ==> request == Some(ResultView::NeedPoint)
        }),
{
}

/// The commands, their names and the names under which their constraints can be
/// undone are four of a kind.
pub proof fn commands_are_told_apart(a: DimConstraintAxis, b: DimConstraintAxis)
    ensures
        command_name(a) == command_name(b) ==> a == b,
        constraint_label(a) == constraint_label(b) ==> a == b,
        menu_command("H"@) == Some(command_name(DimConstraintAxis::Horizontal)),
        menu_command("V"@) == Some(command_name(DimConstraintAxis::Vertical)),
        menu_command("L"@) == Some(command_name(DimConstraintAxis::Linear)),
        menu_command("A"@) == Some(command_name(DimConstraintAxis::Aligned)),
{
    reveal_strlit("DCLINEAR");
    reveal_strlit("DCHORIZONTAL");
    reveal_strlit("DCVERTICAL");
    reveal_strlit("DCALIGNED");
    reveal_strlit("Linear constraint");
    reveal_strlit("Horizontal distance constraint");
    reveal_strlit("Vertical distance constraint");
    reveal_strlit("Aligned constraint");
    reveal_strlit("L");
    reveal_strlit("H");
    reveal_strlit("V");
    reveal_strlit("A");
    reveal_strlit("LINEAR");
    reveal_strlit("HORIZONTAL");
    reveal_strlit("VERTICAL");
    reveal_strlit("ALIGNED");
    assert("DCLINEAR"@[2] == 'L' && "DCHORIZONTAL"@[2] == 'H' && "DCVERTICAL"@[2] == 'V'
        && "DCALIGNED"@[2] == 'A');
    assert("Linear constraint"@[0] == 'L' && "Horizontal distance constraint"@[0] == 'H'
        && "Vertical distance constraint"@[0] == 'V' && "Aligned constraint"@[0] == 'A');
    one_letter_word("H"@, "L"@);
    one_letter_word("V"@, "L"@);
    one_letter_word("V"@, "H"@);
    one_letter_word("A"@, "L"@);
    one_letter_word("A"@, "H"@);
    one_letter_word("A"@, "V"@);
}

proof fn one_letter_word(a: Seq<char>, b: Seq<char>)
    requires
        a.len() == 1,
        b.len() == 1,
        ascii_lower(a[0]) != ascii_lower(b[0]),
    ensures
        !alike(a, b),
{
    if alike(a, b) {
        assert(ascii_lower(a[0]) == ascii_lower(b[0]));
    }
}

/// Each prompt starts with the name of the command, and the last one shows the name
/// that is kept free and the value that was measured.
pub proof fn prompts_name_the_command(
    axis: DimConstraintAxis,
    step: Step,
    name: Seq<char>,
    measured: Seq<char>,
)
    ensures
        command_name(axis).is_prefix_of(prompt_text(axis, step, name, measured)),
        step is Value ==> prompt_text(axis, step, name, measured) == command_name(axis)
            + "  Enter value or name and value <"@ + name + "="@ + measured + ">:"@,
        !(step is Value) ==> forall|other: Seq<char>, value: Seq<char>| #[trigger]
            prompt_text(axis, step, other, value) == prompt_text(axis, step, name, measured),
{
    let text = prompt_text(axis, step, name, measured);
    let command = command_name(axis);
    assert(text.subrange(0, command.len() as int) =~= command);
}

/// Every choice that a step offers is understood: its keyword leads on to another step,
/// and different keywords to different ones. A step that takes no keywords understands
/// nothing that is typed.
pub proof fn choices_are_understood(
    axis: DimConstraintAxis,
    step: Step,
    i: int,
    j: int,
    text: Seq<char>,
    name: Seq<char>,
)
    requires
        0 <= i < choices(axis, step).len(),
        0 <= j < choices(axis, step).len(),
    ensures
        takes_keywords(step),
        after_text(axis, step, choices(axis, step)[i].1, name).1 == Some(ResultView::NeedPoint),
        after_text(axis, step, choices(axis, step)[i].1, name).0 != step,
        i != j ==> after_text(axis, step, choices(axis, step)[i].1, name).0 != after_text(
            axis,
            step,
            choices(axis, step)[j].1,
            name,
        ).0,
        axis is Aligned && step is First ==> choices(axis, step).len() == 3,
        step is First ==> choices(axis, step)[0].0 == "Object"@,
{
    reveal_strlit("O");
    reveal_strlit("P");
    reveal_strlit("L");
    reveal_strlit("2L");
    reveal_strlit("OBJECT");
    reveal_strlit("POINT");
    reveal_strlit("POINT & LINE");
    reveal_strlit("POINT&LINE");
    reveal_strlit("2LINES");
    reveal_strlit("LINE");
    assert(!space('O') && !space('L') && !space('P') && !space('2'));
    assert(trimmed("O"@) == "O"@);
    assert(trimmed("L"@) == "L"@);
    assert(trimmed("P"@) == "P"@);
    assert(trimmed("2L"@) == "2L"@);
    one_letter_word("P"@, "O"@);
}

/// What a step does with typed text and with picks decides what it says that it takes.
/// Where it takes no keywords nothing typed is understood; where it takes an entity, a
/// pick without one is answered, and where it does not, the command just waits.
pub proof fn steps_take_what_they_answer(
    axis: DimConstraintAxis,
    step: Step,
    entity: Option<PickedEntity>,
    other: Option<PickedEntity>,
    handle: Handle,
    point: Vector3,
    geometry: PickGeometry,
    text: Seq<char>,
    name: Seq<char>,
)
    ensures
        !takes_keywords(step) ==> after_text(axis, step, text, name) == (
            step,
            None::<ResultView>,
        ),
        takes_keywords(step) <==> step is Value || choices(axis, step).len() > 0,
        takes_entity(step) <==> after_pick(
            axis,
            step,
            entity,
            Handle { value: 0 },
            point,
            geometry,
        ).1 != ResultView::NeedPoint,
        !uses_object(step, handle) ==> after_pick(axis, step, entity, handle, point, geometry)
            == after_pick(axis, step, other, handle, point, geometry),
        uses_object(step, handle) ==> after_pick(axis, step, None, handle, point, geometry) == (
            step,
            ResultView::NeedPoint,
        ),
        !uses_object(step, Handle { value: 0 }),
{
}

/// Every choice of the menu is understood: its keyword stands for a command, and
/// different keywords for different ones. Enter stands for the aligned one.
pub proof fn menu_choices_are_understood(i: int, j: int)
    requires
        0 <= i < menu_choices().len(),
        0 <= j < menu_choices().len(),
    ensures
        menu_command(menu_choices()[i].1) is Some,
        menu_choices()[i].0[0] == menu_choices()[i].1[0],
        i != j ==> menu_command(menu_choices()[i].1) != menu_command(menu_choices()[j].1),
        menu_choices().len() == 8,
        Some(menu_default()) == menu_command("A"@),
        menu_default() == command_name(DimConstraintAxis::Aligned),
{
    reveal_strlit("Linear");
    reveal_strlit("Horizontal");
    reveal_strlit("Vertical");
    reveal_strlit("Aligned");
    reveal_strlit("ANgular");
    reveal_strlit("Radial");
    reveal_strlit("Diameter");
    reveal_strlit("Convert");
    reveal_strlit("L");
    reveal_strlit("H");
    reveal_strlit("V");
    reveal_strlit("A");
    reveal_strlit("AN");
    reveal_strlit("R");
    reveal_strlit("D");
    reveal_strlit("C");
    crate::command_laws::menu_words_stand_for_commands("L"@);
    crate::command_laws::menu_words_stand_for_commands("H"@);
    crate::command_laws::menu_words_stand_for_commands("V"@);
    crate::command_laws::menu_words_stand_for_commands("A"@);
    crate::command_laws::menu_words_stand_for_commands("AN"@);
    crate::command_laws::menu_words_stand_for_commands("R"@);
    crate::command_laws::menu_words_stand_for_commands("D"@);
    crate::command_laws::menu_words_stand_for_commands("C"@);
    menu_commands_differ();
}

proof fn menu_commands_differ()
    ensures
        menu_command("L"@) == Some("DCLINEAR"@),
        menu_command("H"@) == Some("DCHORIZONTAL"@),
        menu_command("V"@) == Some("DCVERTICAL"@),
        menu_command("A"@) == Some("DCALIGNED"@),
        menu_command("AN"@) == Some("DCANGULAR"@),
        menu_command("R"@) == Some("DCRADIUS"@),
        menu_command("D"@) == Some("DCDIAMETER"@),
        menu_command("C"@) == Some("DCCONVERT"@),
        "DCLINEAR"@.len() == 8,
        "DCRADIUS"@.len() == 8,
        "DCLINEAR"@[2] == 'L' && "DCRADIUS"@[2] == 'R',
        "DCHORIZONTAL"@.len() == 12,
        "DCVERTICAL"@.len() == 10 && "DCVERTICAL"@[2] == 'V',
        "DCDIAMETER"@.len() == 10 && "DCDIAMETER"@[2] == 'D',
        "DCALIGNED"@.len() == 9 && "DCALIGNED"@[3] == 'L',
        "DCANGULAR"@.len() == 9 && "DCANGULAR"@[3] == 'N',
        "DCCONVERT"@.len() == 9 && "DCCONVERT"@[3] == 'O',
{
    reveal_strlit("DCLINEAR");
    reveal_strlit("DCHORIZONTAL");
    reveal_strlit("DCVERTICAL");
    reveal_strlit("DCALIGNED");
    reveal_strlit("DCANGULAR");
    reveal_strlit("DCRADIUS");
    reveal_strlit("DCDIAMETER");
    reveal_strlit("DCCONVERT");
    reveal_strlit("L");
    reveal_strlit("H");
    reveal_strlit("V");
    reveal_strlit("A");
    reveal_strlit("AN");
    reveal_strlit("R");
    reveal_strlit("D");
    reveal_strlit("C");
    crate::command_laws::menu_words("L"@);
    crate::command_laws::menu_words("H"@);
    crate::command_laws::menu_words("V"@);
    crate::command_laws::menu_words("A"@);
    crate::command_laws::menu_words("AN"@);
    crate::command_laws::menu_words("R"@);
    crate::command_laws::menu_words("D"@);
    crate::command_laws::menu_words("C"@);
}

/// A command calls itself by the word behind `DC` in its name, and so does the label of
/// its constraint: distances along one axis are called so.
pub proof fn commands_call_themselves_by_name(axis: DimConstraintAxis)
    ensures
        alike("DC"@ + noun(axis), command_name(axis)),
        axis is Linear || axis is Aligned ==> constraint_label(axis) == noun(axis)
            + " constraint"@,
        axis is Horizontal || axis is Vertical ==> constraint_label(axis) == noun(axis)
            + " distance constraint"@,
        axis is Horizontal ==> command_name(axis) == "DCHORIZONTAL"@,
        axis is Vertical ==> command_name(axis) == "DCVERTICAL"@,
        axis is Linear ==> command_name(axis) == "DCLINEAR"@,
        axis is Aligned ==> command_name(axis) == "DCALIGNED"@,
{
    reveal_strlit("DC");
    reveal_strlit("DCLINEAR");
    reveal_strlit("DCHORIZONTAL");
    reveal_strlit("DCVERTICAL");
    reveal_strlit("DCALIGNED");
    reveal_strlit("Linear");
    reveal_strlit("Horizontal");
    reveal_strlit("Vertical");
    reveal_strlit("Aligned");
    reveal_strlit("Linear constraint");
    reveal_strlit("Horizontal distance constraint");
    reveal_strlit("Vertical distance constraint");
    reveal_strlit("Aligned constraint");
    reveal_strlit(" constraint");
    reveal_strlit(" distance constraint");
    assert("Linear"@ + " constraint"@ =~= "Linear constraint"@);
    assert("Aligned"@ + " constraint"@ =~= "Aligned constraint"@);
    assert("Horizontal"@ + " distance constraint"@ =~= "Horizontal distance constraint"@);
    assert("Vertical"@ + " distance constraint"@ =~= "Vertical distance constraint"@);
    let a = "DC"@ + noun(axis);
    let b = command_name(axis);
    assert forall|i: int| 0 <= i < a.len() implies ascii_lower(#[trigger] a[i]) == ascii_lower(
        b[i],
    ) by {
        if i == 0 {
        } else if i == 1 {
        } else if i == 2 {
        } else if i == 3 {
        } else if i == 4 {
        } else if i == 5 {
        } else if i == 6 {
        } else if i == 7 {
        } else if i == 8 {
        } else if i == 9 {
        } else if i == 10 {
        } else {
        }
    }
}

/// Each prompt asks for what its step waits for.
pub proof fn prompts_ask_for_what_is_wanted(
    axis: DimConstraintAxis,
    step: Step,
    name: Seq<char>,
    measured: Seq<char>,
)
    ensures
        ({
            let text = prompt_text(axis, step, name, measured);
            let command = command_name(axis);
            &&& step is First && axis is Aligned ==> text == command
                + "  Specify first constraint point or [Object/Point & line/2Lines] <Object>:"@
            &&& step is First && !(axis is Aligned) ==> text == command
                + "  Specify first constraint point or [Object] <Object>:"@
            &&& step is Second ==> text == command + "  Specify second constraint point:"@
            &&& step is Object ==> text == command + "  Select object:"@
            &&& step is PointLinePoint ==> text == command
                + "  Specify constraint point or [Line] <Line>:"@
            &&& step is PointLineLine || step is LineFirst ==> text == command
                + "  Select line:"@
            &&& step is LinePoint ==> text == command + "  Select constraint point:"@
            &&& step is TwoLinesFirst ==> text == command + "  Select first line:"@
            &&& step is TwoLinesSecond || step is TwoLinesParallel ==> text == command
                + "  Select second line to make parallel:"@
            &&& step is Location ==> text == command + "  Specify dimension line location:"@
        }),
{
}

/// A keyword is what is left of the trimmed text without the underscores in front.
pub proof fn marks_are_stripped(text: Seq<char>)
    ensures
        exists|count: int|
            {
                &&& 0 <= count <= text.len()
                &&& #[trigger] text.subrange(count, text.len() as int) == unmarked(text)
                &&& forall|i: int| 0 <= i < count ==> (#[trigger] text[i]) == '_'
                &&& count < text.len() ==> text[count] != '_'
            },
        keyword(text) == unmarked(trimmed(text)),
    decreases text.len(),
{
    if text.len() > 0 && text[0] == '_' {
        let rest = text.subrange(1, text.len() as int);
        marks_are_stripped(rest);
        let count = choose|count: int|
            {
                &&& 0 <= count <= rest.len()
                &&& #[trigger] rest.subrange(count, rest.len() as int) == unmarked(rest)
                &&& forall|i: int| 0 <= i < count ==> (#[trigger] rest[i]) == '_'
                &&& count < rest.len() ==> rest[count] != '_'
            };
        assert(text.subrange(count + 1, text.len() as int) =~= rest.subrange(
            count,
            rest.len() as int,
        ));
        assert forall|i: int| 0 <= i < count + 1 implies (#[trigger] text[i]) == '_' by {
            if i > 0 {
                assert(text[i] == rest[i - 1]);
            }
        }
    } else {
        assert(text.subrange(0, text.len() as int) =~= text);
    }
}

/// A pick where the dimension line is to be placed is but a point, and so is one where a
/// value is wanted; the object under it does not matter. At every other step it is a
/// pick.
pub proof fn pick_of_a_place_is_a_point(
    axis: DimConstraintAxis,
    step: Step,
    entity: Option<PickedEntity>,
    handle: Handle,
    point: Vector3,
    geometry: PickGeometry,
    survey: Survey,
)
    ensures
        step is Location ==> after_entity_pick(
            axis,
            step,
            entity,
            handle,
            point,
            geometry,
            survey,
        ) == after_point(axis, step, point, survey),
        step is Value ==> after_entity_pick(
            axis,
            step,
            entity,
            handle,
            point,
            geometry,
            survey,
        ) == (step, ResultView::NeedPoint),
        !(step is Location || step is Value) ==> after_entity_pick(
            axis,
            step,
            entity,
            handle,
            point,
            geometry,
            survey,
        ) == after_pick(axis, step, entity, handle, point, geometry),
        !(step is Location) ==> forall|before: Seq<char>| #[trigger]
            measured_after(axis, step, survey, before) == before,
{
}

} // verus!
