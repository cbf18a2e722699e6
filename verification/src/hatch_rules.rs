//! The rules for hatch boundaries and hatch patterns.

use crate::entities::{
    BoundaryEdge, BoundaryPath, CircularArcEdge, EdgeShape, EllipticArcEdge, Hatch,
    HatchPatternLine, LineEdge, PolylineEdge, SplineEdge,
};
use crate::geometry::{is_proper, proper, Vector2, Vector3};
use crate::scalar::{Scalar, ONE_BITS, TINY_BITS};
use crate::text::{
    alike, blank, check, decimal, earliest, fault, first, is_alike, is_blank, join, join3, number,
    unless, Fault,
};
use vstd::prelude::*;
use vstd::string::*;

verus! {

/// The bits of the number nearest `1e-8`, the widest gap that counts as closed.
pub const GAP_BITS: u64 = 0x3e45_798e_e230_8c3a;

/// A path as messages name it.
pub open spec fn path_name(index: int) -> Seq<char> {
    "Hatch boundary path "@ + decimal(index as nat)
}

/// A piece of a path as messages name it.
pub open spec fn edge_name(path: int, edge: int) -> Seq<char> {
    path_name(path) + " edge "@ + decimal(edge as nat)
}

pub open spec fn line_edge_fault(name: Seq<char>, line: LineEdge) -> Fault {
    first(
        unless(
            line.start.finite() && line.end.finite(),
            name + " line has non-finite coordinates"@,
        ),
        unless(
            !line.length.below(Scalar { bits: TINY_BITS }),
            name + " line has zero length"@,
        ),
    )
}

fn check_line_edge(name: &str, line: &LineEdge) -> (result: Result<(), String>)
    ensures
        fault(result) == line_edge_fault(name@, *line),
{
    check(
        line.start.is_finite() && line.end.is_finite(),
        &join(name, " line has non-finite coordinates"),
    )?;
    check(!line.length.lt(Scalar { bits: TINY_BITS }), &join(name, " line has zero length"))
}

pub open spec fn circular_edge_fault(name: Seq<char>, arc: CircularArcEdge) -> Fault {
    first(
        unless(arc.center.finite(), name + " arc center has non-finite coordinates"@),
        first(
            unless(proper(arc.radius), name + " arc radius must be finite and positive"@),
            unless(
                arc.start_angle.finite() && arc.end_angle.finite(),
                name + " arc angles must be finite"@,
            ),
        ),
    )
}

fn check_circular_edge(name: &str, arc: &CircularArcEdge) -> (result: Result<(), String>)
    ensures
        fault(result) == circular_edge_fault(name@, *arc),
{
    check(arc.center.is_finite(), &join(name, " arc center has non-finite coordinates"))?;
    check(is_proper(arc.radius), &join(name, " arc radius must be finite and positive"))?;
    check(
        arc.start_angle.is_finite() && arc.end_angle.is_finite(),
        &join(name, " arc angles must be finite"),
    )
}

pub open spec fn elliptic_edge_fault(name: Seq<char>, arc: EllipticArcEdge) -> Fault {
    first(
        unless(arc.center.finite(), name + " ellipse center has non-finite coordinates"@),
        first(
            unless(
                arc.major_axis_endpoint.finite(),
                name + " ellipse major axis has non-finite coordinates"@,
            ),
            first(
                unless(
                    !arc.major_axis_length.below(Scalar { bits: TINY_BITS }),
                    name + " ellipse major axis has zero length"@,
                ),
                first(
                    unless(
                        proper(arc.minor_axis_ratio) && arc.minor_axis_ratio.at_most(
                            Scalar { bits: ONE_BITS },
                        ),
                        name + " ellipse ratio must be within (0, 1]"@,
                    ),
                    unless(
                        arc.start_angle.finite() && arc.end_angle.finite(),
                        name + " ellipse angles must be finite"@,
                    ),
                ),
            ),
        ),
    )
}

fn check_elliptic_edge(name: &str, arc: &EllipticArcEdge) -> (result: Result<(), String>)
    ensures
        fault(result) == elliptic_edge_fault(name@, *arc),
{
    check(arc.center.is_finite(), &join(name, " ellipse center has non-finite coordinates"))?;
    check(
        arc.major_axis_endpoint.is_finite(),
        &join(name, " ellipse major axis has non-finite coordinates"),
    )?;
    check(
        !arc.major_axis_length.lt(Scalar { bits: TINY_BITS }),
        &join(name, " ellipse major axis has zero length"),
    )?;
    check(
        is_proper(arc.minor_axis_ratio) && arc.minor_axis_ratio.le(Scalar { bits: ONE_BITS }),
        &join(name, " ellipse ratio must be within (0, 1]"),
    )?;
    check(
        arc.start_angle.is_finite() && arc.end_angle.is_finite(),
        &join(name, " ellipse angles must be finite"),
    )
}

/// For each numbered point, that its coordinates are finite.
pub open spec fn point_checks(name: Seq<char>, points: Seq<Vector3>) -> spec_fn(int) -> Fault {
    |i: int|
        unless(
            points[i].finite(),
            name + decimal(i as nat) + " has non-finite coordinates"@,
        )
}

fn check_points(name: &str, points: &Vec<Vector3>) -> (result: Result<(), String>)
    ensures
        fault(result) == earliest(0, points.len() as int, point_checks(name@, points@)),
{
    let mut i: usize = 0;
    while i < points.len()
        invariant
            i <= points.len(),
            earliest(0, points.len() as int, point_checks(name@, points@)) == earliest(
                i as int,
                points.len() as int,
                point_checks(name@, points@),
            ),
        decreases points.len() - i,
    {
        check(
            points[i].is_finite(),
            &join3(name, &number(i as u64), " has non-finite coordinates"),
        )?;
        i = i + 1;
    }
    Ok(())
}

/// The same for points in a plane.
pub open spec fn planar_checks(name: Seq<char>, points: Seq<Vector2>) -> spec_fn(int) -> Fault {
    |i: int|
        unless(
            points[i].finite(),
            name + decimal(i as nat) + " has non-finite coordinates"@,
        )
}

fn check_planar(name: &str, points: &Vec<Vector2>) -> (result: Result<(), String>)
    ensures
        fault(result) == earliest(0, points.len() as int, planar_checks(name@, points@)),
{
    let mut i: usize = 0;
    while i < points.len()
        invariant
            i <= points.len(),
            earliest(0, points.len() as int, planar_checks(name@, points@)) == earliest(
                i as int,
                points.len() as int,
                planar_checks(name@, points@),
            ),
        decreases points.len() - i,
    {
        check(
            points[i].is_finite(),
            &join3(name, &number(i as u64), " has non-finite coordinates"),
        )?;
        i = i + 1;
    }
    Ok(())
}

pub open spec fn polyline_edge_fault(name: Seq<char>, poly: PolylineEdge) -> Fault {
    first(
        unless(poly.vertices.len() >= 3, name + " polyline must have at least 3 vertices"@),
        first(
            earliest(
                0,
                poly.vertices.len() as int,
                point_checks(name + " vertex "@, poly.vertices@),
            ),
            unless(poly.is_closed, name + " polyline is open"@),
        ),
    )
}

fn check_polyline_edge(name: &str, poly: &PolylineEdge) -> (result: Result<(), String>)
    ensures
        fault(result) == polyline_edge_fault(name@, *poly),
{
    check(poly.vertices.len() >= 3, &join(name, " polyline must have at least 3 vertices"))?;
    check_points(&join(name, " vertex "), &poly.vertices)?;
    check(poly.is_closed, &join(name, " polyline is open"))
}

/// Every knot is finite and none is below the one before it.
pub open spec fn ascending(knots: Seq<Scalar>) -> bool {
    &&& forall|i: int| 0 <= i < knots.len() ==> (#[trigger] knots[i]).finite()
    &&& forall|i: int| 0 < i < knots.len() ==> !(#[trigger] knots[i]).below(knots[i - 1])
}

fn is_ascending(knots: &Vec<Scalar>) -> (result: bool)
    ensures
        result == ascending(knots@),
{
    let mut i: usize = 0;
    while i < knots.len()
        invariant
            i <= knots.len(),
            forall|j: int| 0 <= j < i ==> (#[trigger] knots@[j]).finite(),
            forall|j: int| 0 < j < i ==> !(#[trigger] knots@[j]).below(knots@[j - 1]),
        decreases knots.len() - i,
    {
        if !knots[i].is_finite() {
            assert(!knots@[i as int].finite());
            return false;
        }
        if i > 0 && knots[i].lt(knots[i - 1]) {
            assert(knots@[i as int].below(knots@[i - 1]));
            return false;
        }
        i = i + 1;
    }
    true
}

pub open spec fn spline_edge_fault(name: Seq<char>, spline: SplineEdge) -> Fault {
    first(
        unless(spline.degree >= 1, name + " spline degree must be at least 1"@),
        first(
            unless(
                spline.control_points.len() >= spline.degree + 1,
                name + " spline has too few control points for its degree"@,
            ),
            first(
                unless(
                    ascending(spline.knots@),
                    name + " spline knots must be finite and nondecreasing"@,
                ),
                first(
                    earliest(
                        0,
                        spline.control_points.len() as int,
                        point_checks(name + " control point "@, spline.control_points@),
                    ),
                    first(
                        earliest(
                            0,
                            spline.fit_points.len() as int,
                            planar_checks(name + " fit point "@, spline.fit_points@),
                        ),
                        first(
                            unless(
                                spline.start_tangent.finite(),
                                name + " spline start tangent is non-finite"@,
                            ),
                            unless(
                                spline.end_tangent.finite(),
                                name + " spline end tangent is non-finite"@,
                            ),
                        ),
                    ),
                ),
            ),
        ),
    )
}

fn check_spline_edge(name: &str, spline: &SplineEdge) -> (result: Result<(), String>)
    ensures
        fault(result) == spline_edge_fault(name@, *spline),
{
    check(spline.degree >= 1, &join(name, " spline degree must be at least 1"))?;
    check(
        spline.control_points.len() as u64 >= spline.degree as u64 + 1,
        &join(name, " spline has too few control points for its degree"),
    )?;
    check(
        is_ascending(&spline.knots),
        &join(name, " spline knots must be finite and nondecreasing"),
    )?;
    check_points(&join(name, " control point "), &spline.control_points)?;
    check_planar(&join(name, " fit point "), &spline.fit_points)?;
    check(
        spline.start_tangent.is_finite(),
        &join(name, " spline start tangent is non-finite"),
    )?;
    check(spline.end_tangent.is_finite(), &join(name, " spline end tangent is non-finite"))
}

pub open spec fn edge_fault(name: Seq<char>, shape: EdgeShape) -> Fault {
    match shape {
        EdgeShape::Line(line) => line_edge_fault(name, line),
        EdgeShape::CircularArc(arc) => circular_edge_fault(name, arc),
        EdgeShape::EllipticArc(arc) => elliptic_edge_fault(name, arc),
        EdgeShape::Polyline(poly) => polyline_edge_fault(name, poly),
        EdgeShape::Spline(spline) => spline_edge_fault(name, spline),
    }
}

fn check_edge(name: &str, shape: &EdgeShape) -> (result: Result<(), String>)
    ensures
        fault(result) == edge_fault(name@, *shape),
{
    match shape {
        EdgeShape::Line(line) => check_line_edge(name, line),
        EdgeShape::CircularArc(arc) => check_circular_edge(name, arc),
        EdgeShape::EllipticArc(arc) => check_elliptic_edge(name, arc),
        EdgeShape::Polyline(poly) => check_polyline_edge(name, poly),
        EdgeShape::Spline(spline) => check_spline_edge(name, spline),
    }
}

/// For each piece of a path, that its shape is sound.
pub open spec fn edge_checks(path: int, edges: Seq<BoundaryEdge>) -> spec_fn(int) -> Fault {
    |i: int| edge_fault(edge_name(path, i), edges[i].shape)
}

/// The ends of a piece of a path, in the direction in which the path runs.
#[derive(Clone, Copy, PartialEq, Eq, Structural, Debug)]
pub struct Ends {
    pub start: Vector2,
    pub end: Vector2,
}

/// A point without its height.
pub open spec fn flattened(point: Vector3) -> Vector2 {
    Vector2 { x: point.x, y: point.y }
}

fn flatten(point: Vector3) -> (result: Vector2)
    ensures
        result == flattened(point),
{
    Vector2 { x: point.x, y: point.y }
}

/// The ends of an arc, which runs backwards where it is clockwise.
pub open spec fn arc_ends(at_start: Vector2, at_end: Vector2, counter_clockwise: bool) -> Ends {
    if counter_clockwise {
        Ends { start: at_start, end: at_end }
    } else {
        Ends { start: at_end, end: at_start }
    }
}

/// Where a piece of a path starts and ends. A polyline is closed, so it does both
/// at its first vertex. A spline runs through its fit points where it has two, and
/// along its control points otherwise. There are no ends without points.
pub open spec fn ends_of(shape: EdgeShape) -> Option<Ends> {
    match shape {
        EdgeShape::Line(line) => Some(Ends { start: line.start, end: line.end }),
        EdgeShape::CircularArc(arc) => Some(
            arc_ends(arc.at_start, arc.at_end, arc.counter_clockwise),
        ),
        EdgeShape::EllipticArc(arc) => Some(
            arc_ends(arc.at_start, arc.at_end, arc.counter_clockwise),
        ),
        EdgeShape::Polyline(poly) => if poly.vertices.len() > 0 {
            Some(
                Ends { start: flattened(poly.vertices@[0]), end: flattened(poly.vertices@[0]) },
            )
        } else {
            None
        },
        EdgeShape::Spline(spline) => if spline.fit_points.len() >= 2 {
            Some(Ends { start: spline.fit_points@[0], end: spline.fit_points@.last() })
        } else if spline.control_points.len() > 0 {
            Some(
                Ends {
                    start: flattened(spline.control_points@[0]),
                    end: flattened(spline.control_points@.last()),
                },
            )
        } else {
            None
        },
    }
}

/// Where a piece of a path starts and ends.
pub fn edge_ends(shape: &EdgeShape) -> (result: Option<Ends>)
    ensures
        result == ends_of(*shape),
{
    match shape {
        EdgeShape::Line(line) => Some(Ends { start: line.start, end: line.end }),
        EdgeShape::CircularArc(arc) => Some(
            if arc.counter_clockwise {
                Ends { start: arc.at_start, end: arc.at_end }
            } else {
                Ends { start: arc.at_end, end: arc.at_start }
            },
        ),
        EdgeShape::EllipticArc(arc) => Some(
            if arc.counter_clockwise {
                Ends { start: arc.at_start, end: arc.at_end }
            } else {
                Ends { start: arc.at_end, end: arc.at_start }
            },
        ),
        EdgeShape::Polyline(poly) => if poly.vertices.len() > 0 {
            let corner = flatten(poly.vertices[0]);
            Some(Ends { start: corner, end: corner })
        } else {
            None
        },
        EdgeShape::Spline(spline) => {
            let fits: usize = spline.fit_points.len();
            let controls: usize = spline.control_points.len();
            if fits >= 2 {
                Some(Ends { start: spline.fit_points[0], end: spline.fit_points[fits - 1] })
            } else if controls > 0 {
                Some(
                    Ends {
                        start: flatten(spline.control_points[0]),
                        end: flatten(spline.control_points[controls - 1]),
                    },
                )
            } else {
                None
            }
        },
    }
}

/// A place where two pieces of a path should meet: the end of one and the start
/// of the next.
#[derive(Clone, Copy, PartialEq, Eq, Structural, Debug)]
pub struct Joint {
    pub end: Vector2,
    pub next: Vector2,
}

/// The joint behind a piece of a path. The last piece is followed by the first.
pub open spec fn joint(shapes: Seq<EdgeShape>, i: int) -> Option<Joint> {
    match (ends_of(shapes[i]), ends_of(shapes[(i + 1) % shapes.len() as int])) {
        (Some(here), Some(there)) => Some(Joint { end: here.end, next: there.start }),
        _ => None,
    }
}

/// The joints of a path, one behind each piece. The gap of a piece is the
/// distance of the two points of its joint.
pub fn joints(shapes: &Vec<EdgeShape>) -> (result: Vec<Option<Joint>>)
    ensures
        result@ == Seq::new(shapes.len() as nat, |i: int| joint(shapes@, i)),
{
    let count: usize = shapes.len();
    let mut result: Vec<Option<Joint>> = Vec::new();
    let mut i: usize = 0;
    while i < count
        invariant
            i <= count,
            count == shapes.len(),
            result.len() == i,
            forall|j: int| 0 <= j < i ==> #[trigger] result@[j] == joint(shapes@, j),
        decreases count - i,
    {
        let next = following(i, count);
        let found = match (edge_ends(&shapes[i]), edge_ends(&shapes[next])) {
            (Some(here), Some(there)) => Some(Joint { end: here.end, next: there.start }),
            _ => None,
        };
        result.push(found);
        i = i + 1;
    }
    result
}

/// The number of the piece behind one of `count` pieces.
fn following(i: usize, count: usize) -> (result: usize)
    requires
        i < count,
    ensures
        result == (i + 1) % count as int,
        result < count,
{
    let next: usize = if i + 1 == count {
        0
    } else {
        i + 1
    };
    proof {
        assert(next == (i + 1) % count as int) by (nonlinear_arith)
            requires
                i < count,
                next == (if i + 1 == count { 0int } else { i + 1 }),
        ;
    }
    next
}

/// For each piece of a path, that it ends where the next one starts. The last
/// piece is followed by the first.
pub open spec fn gap_checks(path: int, edges: Seq<BoundaryEdge>) -> spec_fn(int) -> Fault {
    |i: int|
        unless(
            edges[i].gap.at_most(Scalar { bits: GAP_BITS }),
            path_name(path) + " is not closed between edges "@ + decimal(i as nat) + " and "@
                + decimal(((i + 1) % edges.len() as int) as nat),
        )
}

/// A path must have pieces, be closed, use known flags, and each piece must be
/// sound and meet the next.
pub open spec fn path_fault(index: int, path: BoundaryPath) -> Fault {
    first(
        unless(path.edges.len() > 0, path_name(index) + " has no edges"@),
        first(
            unless(path.flags / 32 % 2 == 0, path_name(index) + " is marked open"@),
            first(
                unless(path.flags <= 0x1ff, path_name(index) + " has unknown flag bits"@),
                first(
                    earliest(0, path.edges.len() as int, edge_checks(index, path.edges@)),
                    earliest(0, path.edges.len() as int, gap_checks(index, path.edges@)),
                ),
            ),
        ),
    )
}

#[verifier::loop_isolation(false)]
fn check_path(index: usize, path: &BoundaryPath) -> (result: Result<(), String>)
    ensures
        fault(result) == path_fault(index as int, *path),
{
    let name = join("Hatch boundary path ", &number(index as u64));
    check(path.edges.len() > 0, &join(&name, " has no edges"))?;
    check(path.flags / 32 % 2 == 0, &join(&name, " is marked open"))?;
    check(path.flags <= 0x1ff, &join(&name, " has unknown flag bits"))?;
    let count: usize = path.edges.len();
    let mut i: usize = 0;
    while i < count
        invariant
            i <= count,
            count == path.edges.len(),
            name@ == path_name(index as int),
            earliest(0, count as int, edge_checks(index as int, path.edges@)) == earliest(
                i as int,
                count as int,
                edge_checks(index as int, path.edges@),
            ),
        decreases count - i,
    {
        check_edge(&join3(&name, " edge ", &number(i as u64)), &path.edges[i].shape)?;
        i = i + 1;
    }
    let mut i: usize = 0;
    while i < count
        invariant
            i <= count,
            count == path.edges.len(),
            name@ == path_name(index as int),
            earliest(0, count as int, gap_checks(index as int, path.edges@)) == earliest(
                i as int,
                count as int,
                gap_checks(index as int, path.edges@),
            ),
        decreases count - i,
    {
        let next = following(i, count);
        check(
            path.edges[i].gap.le(Scalar { bits: GAP_BITS }),
            &join3(
                &join3(&name, " is not closed between edges ", &number(i as u64)),
                " and ",
                &number(next as u64),
            ),
        )?;
        i = i + 1;
    }
    Ok(())
}

/// For each path, that it is sound.
pub open spec fn path_checks(paths: Seq<BoundaryPath>) -> spec_fn(int) -> Fault {
    |i: int| path_fault(i, paths[i])
}

pub open spec fn hatch_paths_fault(paths: Seq<BoundaryPath>) -> Fault {
    first(
        unless(paths.len() > 0, "Hatch requires at least one boundary path"@),
        earliest(0, paths.len() as int, path_checks(paths)),
    )
}

/// Checks every boundary path of a hatch.
pub fn validate_hatch_paths(paths: &Vec<BoundaryPath>) -> (result: Result<(), String>)
    ensures
        fault(result) == hatch_paths_fault(paths@),
{
    check(paths.len() > 0, "Hatch requires at least one boundary path")?;
    let mut i: usize = 0;
    while i < paths.len()
        invariant
            i <= paths.len(),
            earliest(0, paths.len() as int, path_checks(paths@)) == earliest(
                i as int,
                paths.len() as int,
                path_checks(paths@),
            ),
        decreases paths.len() - i,
    {
        check_path(i, &paths[i])?;
        i = i + 1;
    }
    Ok(())
}

/// Every number is finite.
pub open spec fn all_finite(values: Seq<Scalar>) -> bool {
    forall|i: int| 0 <= i < values.len() ==> (#[trigger] values[i]).finite()
}

pub fn are_finite(values: &Vec<Scalar>) -> (result: bool)
    ensures
        result == all_finite(values@),
{
    let mut i: usize = 0;
    while i < values.len()
        invariant
            i <= values.len(),
            forall|j: int| 0 <= j < i ==> (#[trigger] values@[j]).finite(),
        decreases values.len() - i,
    {
        if !values[i].is_finite() {
            assert(!values@[i as int].finite());
            return false;
        }
        i = i + 1;
    }
    true
}

pub open spec fn pattern_line_name(index: int) -> Seq<char> {
    "Hatch.pattern.lines["@ + decimal(index as nat)
}

/// For each family of lines, that its numbers are finite and its lines apart.
pub open spec fn pattern_line_checks(lines: Seq<HatchPatternLine>) -> spec_fn(int) -> Fault {
    |i: int|
        first(
            unless(
                lines[i].angle.finite() && lines[i].base_point.finite() && lines[i].offset.finite()
                    && all_finite(lines[i].dash_lengths@),
                pattern_line_name(i) + "] contains non-finite values"@,
            ),
            unless(
                !lines[i].offset_length.below(Scalar { bits: TINY_BITS }),
                pattern_line_name(i) + "].offset must be nonzero"@,
            ),
        )
}

/// A solid hatch uses the pattern `SOLID` and no lines; any other has a scale
/// and lines.
pub open spec fn hatch_pattern_fault(value: Hatch) -> Fault {
    first(
        unless(!blank(value.pattern.name@), "Hatch.pattern.name is empty"@),
        if value.is_solid {
            unless(
                alike(value.pattern.name@, "SOLID"@) && value.pattern.lines.len() == 0,
                "solid Hatch requires the SOLID pattern without pattern lines"@,
            )
        } else {
            first(
                unless(
                    proper(value.pattern_scale),
                    "Hatch.pattern_scale must be finite and greater than zero"@,
                ),
                first(
                    unless(
                        value.pattern.lines.len() > 0,
                        "patterned Hatch requires at least one pattern line"@,
                    ),
                    earliest(
                        0,
                        value.pattern.lines.len() as int,
                        pattern_line_checks(value.pattern.lines@),
                    ),
                ),
            )
        },
    )
}

/// Checks the pattern of a hatch.
#[verifier::loop_isolation(false)]
pub fn validate_hatch_pattern(value: &Hatch) -> (result: Result<(), String>)
    ensures
        fault(result) == hatch_pattern_fault(*value),
{
    check(!is_blank(&value.pattern.name), "Hatch.pattern.name is empty")?;
    let lines = &value.pattern.lines;
    if value.is_solid {
        return check(
            is_alike(&value.pattern.name, "SOLID") && lines.len() == 0,
            "solid Hatch requires the SOLID pattern without pattern lines",
        );
    }
    check(
        is_proper(value.pattern_scale),
        "Hatch.pattern_scale must be finite and greater than zero",
    )?;
    check(lines.len() > 0, "patterned Hatch requires at least one pattern line")?;
    let mut i: usize = 0;
    while i < lines.len()
        invariant
            i <= lines.len(),
            earliest(0, lines.len() as int, pattern_line_checks(lines@)) == earliest(
                i as int,
                lines.len() as int,
                pattern_line_checks(lines@),
            ),
        decreases lines.len() - i,
    {
        let line = &lines[i];
        let name = join("Hatch.pattern.lines[", &number(i as u64));
        check(
            line.angle.is_finite() && line.base_point.is_finite() && line.offset.is_finite()
                && are_finite(&line.dash_lengths),
            &join(&name, "] contains non-finite values"),
        )?;
        check(
            !line.offset_length.lt(Scalar { bits: TINY_BITS }),
            &join(&name, "].offset must be nonzero"),
        )?;
        i = i + 1;
    }
    Ok(())
}

/// For each seed point, that its coordinates are finite.
pub open spec fn seed_checks(points: Seq<Vector2>) -> spec_fn(int) -> Fault {
    |i: int|
        unless(
            points[i].finite(),
            "Hatch.seed_points["@ + decimal(i as nat) + "] has non-finite coordinates"@,
        )
}

pub open spec fn seed_points_fault(points: Seq<Vector2>) -> Fault {
    earliest(0, points.len() as int, seed_checks(points))
}

/// Checks the seed points of a hatch.
pub fn check_seed_points(points: &Vec<Vector2>) -> (result: Result<(), String>)
    ensures
        fault(result) == seed_points_fault(points@),
{
    let mut i: usize = 0;
    while i < points.len()
        invariant
            i <= points.len(),
            earliest(0, points.len() as int, seed_checks(points@)) == earliest(
                i as int,
                points.len() as int,
                seed_checks(points@),
            ),
        decreases points.len() - i,
    {
        check(
            points[i].is_finite(),
            &join3("Hatch.seed_points[", &number(i as u64), "] has non-finite coordinates"),
        )?;
        i = i + 1;
    }
    Ok(())
}

} // verus!
