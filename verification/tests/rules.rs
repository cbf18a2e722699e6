//! The rules for numbers, texts and geometry.

use ocs_plugin_host::dimension_rules::validate_dimension;
use ocs_plugin_host::entities::{
    BoundaryEdge, BoundaryPath, CellContent, CellRange, CircularArcEdge, Dimension,
    DimensionGeometry, DimensionLinear, DimensionRadius, EdgeShape, EllipticArcEdge, Encoded, Hatch,
    HatchPattern, HatchPatternLine, Color, Leader, LeaderContentType, LeaderCreationType,
    LeaderLine, LeaderRoot, LineEdge, MLine, MLineSegment, MLineVertex, MultiLeader,
    MultiLeaderContext, PolylineEdge, SplineEdge, Table, TableCell, TableColumn, TableRow,
};
use ocs_plugin_host::geometry::{
    finite_vector, insert_scale, solid_normal, unit_direction, Handle, Vector2, Vector3,
};
use ocs_plugin_host::hatch_rules::{
    check_seed_points, edge_ends, joints, validate_hatch_paths, validate_hatch_pattern, Ends, Joint,
};
use ocs_plugin_host::leader_rules::{validate_leader, validate_mline, validate_multileader};
use ocs_plugin_host::scalar::Scalar;
use ocs_plugin_host::table_rules::validate_table;
use ocs_plugin_host::text::{has_space, is_alike, is_blank, number, trim, wide_number};
use std::sync::Arc;

fn num(value: f64) -> Scalar {
    Scalar { bits: value.to_bits() }
}

fn flat(x: f64, y: f64) -> Vector2 {
    Vector2 { x: num(x), y: num(y) }
}

fn at(x: f64, y: f64, z: f64) -> Vector3 {
    Vector3 { x: num(x), y: num(y), z: num(z), length: num(x.hypot(y).hypot(z)) }
}

const SAMPLES: [f64; 17] = [
    0.0,
    -0.0,
    1.0,
    -1.0,
    1.0000001,
    0.9999990000000001,
    0.999999,
    1.000001,
    1e-12,
    -1e-12,
    5e-324,
    f64::MIN_POSITIVE,
    f64::MAX,
    f64::MIN,
    f64::INFINITY,
    f64::NEG_INFINITY,
    f64::NAN,
];

#[test]
fn numbers_compare_as_the_machine_does() {
    for a in SAMPLES {
        assert_eq!(num(a).is_finite(), a.is_finite(), "{a}");
        assert_eq!(num(a).is_nan(), a.is_nan(), "{a}");
        assert_eq!(num(a).abs(), num(a.abs()), "{a}");
        assert_eq!(num(a).negate(), num(-a), "{a}");
        assert_eq!(num(a).is_positive(), a > 0.0, "{a}");
        assert_eq!(num(a).is_zero(), a == 0.0, "{a}");
        assert_eq!(num(a).is_unit(), (a - 1.0).abs() <= 1e-6, "{a}");
        assert_eq!(num(a).is_unit(), (a - 1.0).abs() < 1e-6, "{a}");
        assert_eq!(num(a).is_one(), (a - 1.0).abs() < 1e-9, "{a}");
        for b in SAMPLES {
            assert_eq!(num(a).lt(num(b)), a < b, "{a} {b}");
            assert_eq!(num(a).le(num(b)), a <= b, "{a} {b}");
            assert_eq!(num(a).equals(num(b)), a == b, "{a} {b}");
            assert_eq!(num(a).unchanged(num(b)), a.to_bits() == b.to_bits() || a == b, "{a} {b}");
        }
    }
    for whole in [0, 1, 2, 3, 640, 65535, 16777217, u32::MAX] {
        assert_eq!(Scalar::from_u32(whole), num(whole as f64), "{whole}");
    }
}

#[test]
fn texts_are_trimmed_and_compared() {
    for text in ["", " ", "a", " a b ", "\u{a0}x\u{2003}", "\u{200b}x", "\t\n"] {
        assert_eq!(trim(text), text.trim(), "{text:?}");
        assert_eq!(is_blank(text), text.trim().is_empty(), "{text:?}");
        assert_eq!(has_space(text), text.chars().any(char::is_whitespace), "{text:?}");
    }
    for (a, b) in [("Solid", "sOLID"), ("é", "É"), ("a", "ab"), ("ß", "SS"), ("", "")] {
        assert_eq!(is_alike(a, b), a.eq_ignore_ascii_case(b), "{a} {b}");
    }
    for value in [0, 9, 10, 1203, u64::MAX] {
        assert_eq!(number(value), value.to_string());
    }
    assert_eq!(wide_number(u128::MAX), u128::MAX.to_string());
}

#[test]
fn vectors_are_checked_by_name() {
    assert_eq!(
        finite_vector("P", &at(0.0, f64::NAN, 0.0)),
        Err("P must contain finite coordinates".into())
    );
    assert_eq!(unit_direction("D", &at(2.0, 0.0, 0.0)), Err("D must be a unit vector".into()));
    assert_eq!(unit_direction("D", &at(0.6, 0.8, 0.0)), Ok(()));
    assert_eq!(solid_normal("N", &at(0.0, 0.0, 0.0)), Err("N must be nonzero".into()));
    assert_eq!(solid_normal("N", &at(0.0, 0.0, -3.0)), Ok(()));
    assert_eq!(insert_scale("S", num(-1e-12)), Ok(()));
    assert_eq!(insert_scale("S", num(9e-13)), Err("S must be finite and nonzero".into()));
}

fn edge(shape: EdgeShape, gap: f64) -> BoundaryEdge {
    BoundaryEdge { shape, gap: num(gap) }
}

fn path(edges: Vec<BoundaryEdge>) -> BoundaryPath {
    BoundaryPath { flags: 0, edges, boundary_handles: Vec::new() }
}

fn complaint(edge_shape: EdgeShape) -> String {
    validate_hatch_paths(&vec![path(vec![edge(edge_shape, 0.0)])]).unwrap_err()
}

fn line_edge(start: Vector2, end: Vector2, length: f64) -> EdgeShape {
    EdgeShape::Line(LineEdge { start, end, length: num(length) })
}

#[test]
fn hatch_boundaries_are_checked() {
    let none: Vec<BoundaryPath> = Vec::new();
    assert_eq!(
        validate_hatch_paths(&none),
        Err("Hatch requires at least one boundary path".into())
    );
    assert_eq!(
        validate_hatch_paths(&vec![path(Vec::new())]),
        Err("Hatch boundary path 0 has no edges".into())
    );
    let circle = |radius: f64, angle: f64| {
        EdgeShape::CircularArc(CircularArcEdge {
            center: flat(0.0, 0.0),
            radius: num(radius),
            start_angle: num(0.0),
            end_angle: num(angle),
            counter_clockwise: true,
            at_start: flat(1.0, 0.0),
            at_end: flat(0.0, 1.0),
        })
    };
    for (flags, message) in [
        (0x20, "Hatch boundary path 0 is marked open"),
        (0x200, "Hatch boundary path 0 has unknown flag bits"),
    ] {
        let mut marked = path(vec![edge(circle(1.0, 6.28), 0.0)]);
        marked.flags = flags;
        assert_eq!(validate_hatch_paths(&vec![marked]), Err(message.into()));
    }
    assert_eq!(
        complaint(line_edge(flat(f64::NAN, 0.0), flat(1.0, 0.0), 1.0)),
        "Hatch boundary path 0 edge 0 line has non-finite coordinates"
    );
    assert_eq!(
        complaint(line_edge(flat(0.0, 0.0), flat(0.0, 0.0), 0.0)),
        "Hatch boundary path 0 edge 0 line has zero length"
    );
    assert_eq!(
        complaint(circle(0.0, 1.0)),
        "Hatch boundary path 0 edge 0 arc radius must be finite and positive"
    );
    assert_eq!(
        complaint(circle(1.0, f64::INFINITY)),
        "Hatch boundary path 0 edge 0 arc angles must be finite"
    );
    let ellipse = |ratio: f64, length: f64| {
        EdgeShape::EllipticArc(EllipticArcEdge {
            center: flat(0.0, 0.0),
            major_axis_endpoint: flat(length, 0.0),
            major_axis_length: num(length),
            minor_axis_ratio: num(ratio),
            start_angle: num(0.0),
            end_angle: num(1.0),
            counter_clockwise: true,
            at_start: flat(1.0, 0.0),
            at_end: flat(0.0, 1.0),
        })
    };
    for ratio in [0.0, -0.5, 1.5, f64::NAN] {
        assert_eq!(
            complaint(ellipse(ratio, 1.0)),
            "Hatch boundary path 0 edge 0 ellipse ratio must be within (0, 1]"
        );
    }
    assert_eq!(
        complaint(ellipse(1.0, 0.0)),
        "Hatch boundary path 0 edge 0 ellipse major axis has zero length"
    );
    let ring = |vertices: Vec<Vector3>, is_closed: bool| {
        EdgeShape::Polyline(PolylineEdge { vertices, is_closed })
    };
    let corner = at(0.0, 0.0, 0.0);
    assert_eq!(
        complaint(ring(vec![corner, corner], true)),
        "Hatch boundary path 0 edge 0 polyline must have at least 3 vertices"
    );
    assert_eq!(
        complaint(ring(vec![corner, at(0.0, 0.0, f64::NAN), corner], true)),
        "Hatch boundary path 0 edge 0 vertex 1 has non-finite coordinates"
    );
    assert_eq!(
        complaint(ring(vec![corner, corner, corner], false)),
        "Hatch boundary path 0 edge 0 polyline is open"
    );
    let spline = |degree: i32, knots: Vec<f64>, points: Vec<Vector3>| {
        EdgeShape::Spline(SplineEdge {
            degree,
            rational: false,
            periodic: false,
            knots: knots.into_iter().map(num).collect(),
            control_points: points,
            fit_points: Vec::new(),
            start_tangent: flat(0.0, 0.0),
            end_tangent: flat(0.0, f64::NAN),
        })
    };
    assert_eq!(
        complaint(spline(0, vec![], vec![])),
        "Hatch boundary path 0 edge 0 spline degree must be at least 1"
    );
    assert_eq!(
        complaint(spline(2, vec![], vec![corner, corner])),
        "Hatch boundary path 0 edge 0 spline has too few control points for its degree"
    );
    assert_eq!(
        complaint(spline(1, vec![0.0, 2.0, 1.0], vec![corner, corner])),
        "Hatch boundary path 0 edge 0 spline knots must be finite and nondecreasing"
    );
    assert_eq!(
        complaint(spline(1, vec![0.0, 0.0, 1.0], vec![corner, corner])),
        "Hatch boundary path 0 edge 0 spline end tangent is non-finite"
    );
    let side = |gap: f64| edge(line_edge(flat(0.0, 0.0), flat(1.0, 0.0), 1.0), gap);
    assert_eq!(validate_hatch_paths(&vec![path(vec![side(0.0), side(1e-8)])]), Ok(()));
    assert_eq!(
        validate_hatch_paths(&vec![
            path(vec![side(0.0)]),
            path(vec![side(0.0), side(0.0), side(2e-8)])
        ]),
        Err("Hatch boundary path 1 is not closed between edges 2 and 0".into())
    );
    assert_eq!(
        check_seed_points(&vec![flat(0.0, 0.0), flat(0.0, f64::NAN)]),
        Err("Hatch.seed_points[1] has non-finite coordinates".into())
    );
}

fn quarter(counter_clockwise: bool) -> EdgeShape {
    EdgeShape::CircularArc(CircularArcEdge {
        center: flat(0.0, 0.0),
        radius: num(1.0),
        start_angle: num(0.0),
        end_angle: num(1.5),
        counter_clockwise,
        at_start: flat(1.0, 0.0),
        at_end: flat(0.0, 1.0),
    })
}

fn curve(controls: Vec<Vector3>, fits: Vec<Vector2>) -> EdgeShape {
    EdgeShape::Spline(SplineEdge {
        degree: 1,
        rational: false,
        periodic: false,
        knots: Vec::new(),
        control_points: controls,
        fit_points: fits,
        start_tangent: flat(0.0, 0.0),
        end_tangent: flat(0.0, 0.0),
    })
}

#[test]
fn a_piece_of_a_boundary_has_two_ends() {
    let ends = |start: Vector2, end: Vector2| Some(Ends { start, end });
    let (right, top) = (flat(1.0, 0.0), flat(0.0, 1.0));
    assert_eq!(edge_ends(&line_edge(right, top, 1.4)), ends(right, top));
    assert_eq!(edge_ends(&quarter(true)), ends(right, top));
    // A clockwise arc runs from its end angle to its start angle.
    assert_eq!(edge_ends(&quarter(false)), ends(top, right));
    let bow = EdgeShape::EllipticArc(EllipticArcEdge {
        center: flat(0.0, 0.0),
        major_axis_endpoint: flat(2.0, 0.0),
        major_axis_length: num(2.0),
        minor_axis_ratio: num(0.5),
        start_angle: num(0.0),
        end_angle: num(1.5),
        counter_clockwise: false,
        at_start: flat(2.0, 0.0),
        at_end: top,
    });
    assert_eq!(edge_ends(&bow), ends(top, flat(2.0, 0.0)));
    let ring = |vertices: Vec<Vector3>| {
        EdgeShape::Polyline(PolylineEdge { vertices, is_closed: true })
    };
    assert_eq!(
        edge_ends(&ring(vec![at(1.0, 0.0, 5.0), at(2.0, 0.0, 5.0)])),
        ends(right, right)
    );
    assert_eq!(edge_ends(&ring(Vec::new())), None);
    let controls = || vec![at(1.0, 0.0, 3.0), at(5.0, 5.0, 3.0), at(0.0, 1.0, 3.0)];
    assert_eq!(edge_ends(&curve(controls(), Vec::new())), ends(right, top));
    assert_eq!(edge_ends(&curve(controls(), vec![flat(7.0, 7.0)])), ends(right, top));
    assert_eq!(
        edge_ends(&curve(controls(), vec![flat(7.0, 7.0), flat(8.0, 8.0)])),
        ends(flat(7.0, 7.0), flat(8.0, 8.0))
    );
    assert_eq!(edge_ends(&curve(Vec::new(), Vec::new())), None);
}

#[test]
fn the_last_piece_of_a_boundary_meets_the_first() {
    let (right, top, origin) = (flat(1.0, 0.0), flat(0.0, 1.0), flat(0.0, 0.0));
    let sector =
        vec![quarter(true), line_edge(top, origin, 1.0), line_edge(origin, right, 1.0)];
    assert_eq!(
        joints(&sector),
        vec![
            Some(Joint { end: top, next: top }),
            Some(Joint { end: origin, next: origin }),
            Some(Joint { end: right, next: right }),
        ]
    );
    let alone = vec![line_edge(origin, right, 1.0)];
    assert_eq!(joints(&alone), vec![Some(Joint { end: right, next: origin })]);
    let broken = vec![line_edge(origin, right, 1.0), curve(Vec::new(), Vec::new())];
    assert_eq!(joints(&broken), vec![None, None]);
}

fn hatch(name: &str, is_solid: bool, scale: f64, lines: Vec<HatchPatternLine>) -> Hatch {
    Hatch {
        normal: at(0.0, 0.0, 1.0),
        elevation: num(0.0),
        pattern: HatchPattern { name: name.into(), description: "".into(), lines },
        is_solid,
        is_associative: false,
        pattern_angle: num(0.0),
        pattern_scale: num(scale),
        pixel_size: num(0.0),
        paths: Vec::new(),
        seed_points: Vec::new(),
        gradient_color: Encoded::none(),
        is_mpolygon: false,
        mpolygon_hatch_color: Color::ByLayer,
        mpolygon_x_direction: flat(0.0, 0.0),
        mpolygon_boundary_handle_count: 0,
    }
}

fn pattern_line(offset: f64, dash: f64) -> HatchPatternLine {
    HatchPatternLine {
        angle: num(0.0),
        base_point: flat(0.0, 0.0),
        offset: flat(offset, 0.0),
        offset_length: num(offset),
        dash_lengths: vec![num(1.0), num(dash)],
    }
}

#[test]
fn hatch_patterns_are_checked() {
    let lines = || vec![pattern_line(1.0, 1.0)];
    assert_eq!(validate_hatch_pattern(&hatch("solid", true, 0.0, Vec::new())), Ok(()));
    assert_eq!(validate_hatch_pattern(&hatch("ANSI31", false, 1.0, lines())), Ok(()));
    for (value, message) in [
        (hatch(" ", true, 1.0, Vec::new()), "Hatch.pattern.name is empty"),
        (
            hatch("ANSI31", true, 1.0, Vec::new()),
            "solid Hatch requires the SOLID pattern without pattern lines",
        ),
        (
            hatch("SOLID", true, 1.0, lines()),
            "solid Hatch requires the SOLID pattern without pattern lines",
        ),
        (
            hatch("ANSI31", false, 0.0, lines()),
            "Hatch.pattern_scale must be finite and greater than zero",
        ),
        (
            hatch("ANSI31", false, 1.0, Vec::new()),
            "patterned Hatch requires at least one pattern line",
        ),
        (
            hatch("ANSI31", false, 1.0, vec![pattern_line(1.0, 1.0), pattern_line(1.0, f64::NAN)]),
            "Hatch.pattern.lines[1] contains non-finite values",
        ),
        (
            hatch("ANSI31", false, 1.0, vec![pattern_line(1e-13, 1.0)]),
            "Hatch.pattern.lines[0].offset must be nonzero",
        ),
    ] {
        assert_eq!(validate_hatch_pattern(&value), Err(message.into()));
    }
}

fn dimension(geometry: DimensionGeometry) -> Dimension {
    Dimension {
        normal: at(0.0, 0.0, 1.0),
        text_middle_point: at(0.0, 0.0, 0.0),
        text_rotation: num(0.0),
        horizontal_direction: num(0.0),
        style_name: "Standard".into(),
        geometry,
        measurement: num(1.0),
    }
}

fn linear(second: Vector3, rotation: f64) -> DimensionGeometry {
    DimensionGeometry::Linear(DimensionLinear {
        definition_point: at(0.0, 1.0, 0.0),
        first_point: at(0.0, 0.0, 0.0),
        second_point: second,
        rotation: num(rotation),
        ext_line_rotation: num(0.0),
    })
}

#[test]
fn dimensions_are_checked() {
    let far = at(1.0, 0.0, 0.0);
    assert_eq!(validate_dimension(&dimension(linear(far, 0.0))), Ok(()));
    let mut unstyled = dimension(linear(far, 0.0));
    unstyled.style_name = " ".into();
    let mut slanted = dimension(linear(far, 0.0));
    slanted.text_rotation = num(f64::NAN);
    let mut vague = dimension(linear(far, 0.0));
    vague.measurement = num(f64::NAN);
    let mut flat_normal = dimension(linear(far, 0.0));
    flat_normal.normal = at(0.0, 0.0, 0.0);
    let radius = DimensionGeometry::Radius(DimensionRadius {
        definition_point: far,
        angle_vertex: far,
        leader_length: num(0.0),
    });
    for (value, message) in [
        (flat_normal, "Dimension.normal must be nonzero"),
        (slanted, "Dimension.text_rotation and horizontal_direction must be finite"),
        (unstyled, "Dimension.style_name is empty"),
        (
            dimension(linear(at(f64::NAN, 0.0, 0.0), 0.0)),
            "Dimension.second_point must contain finite coordinates",
        ),
        (dimension(linear(far, f64::INFINITY)), "Dimension.rotation must be finite"),
        (
            dimension(linear(at(-0.0, 0.0, 0.0), 0.0)),
            "Dimension.first_point and second_point must not coincide",
        ),
        (dimension(radius), "Dimension.definition_point and angle_vertex must not coincide"),
        (vague, "Dimension geometry does not define a finite measurement"),
    ] {
        assert_eq!(validate_dimension(&value), Err(message.into()));
    }
}

fn leader() -> Leader {
    Leader {
        dimension_style: "Standard".into(),
        creation_type: LeaderCreationType::NoAnnotation,
        text_height: num(2.5),
        text_width: num(0.0),
        vertices: Arc::new(vec![at(0.0, 0.0, 0.0), at(1.0, 0.0, 0.0)]),
        annotation_handle: Handle { value: 0 },
        normal: at(0.0, 0.0, 1.0),
        horizontal_direction: at(1.0, 0.0, 0.0),
        block_offset: at(0.0, 0.0, 0.0),
        annotation_offset: at(0.0, 0.0, 0.0),
    }
}

#[test]
fn leaders_are_checked_where_they_change() {
    assert_eq!(validate_leader(None, &leader()), Ok(()));
    let mut short = leader();
    short.text_height = num(0.0);
    assert_eq!(
        validate_leader(None, &short),
        Err("Leader.text_height must be finite and greater than zero".into())
    );
    assert_eq!(validate_leader(Some(&short), &short), Ok(()));
    let mut still = leader();
    still.vertices = Arc::new(vec![at(1.0, 1.0, 1.0), at(1.0, 1.0, 1.0)]);
    assert_eq!(
        validate_leader(None, &still),
        Err("Leader.vertices must not all coincide".into())
    );
    let mut narrow = leader();
    narrow.text_width = num(-1.0);
    assert_eq!(
        validate_leader(Some(&leader()), &narrow),
        Err("Leader.text_width must be finite and non-negative".into())
    );
    let mut annotated = leader();
    annotated.annotation_handle = Handle { value: 7 };
    assert_eq!(
        validate_leader(None, &annotated),
        Err("Leader with no annotation cannot carry an annotation handle".into())
    );
    let mut lifted = leader();
    lifted.annotation_offset = at(f64::NAN, 0.0, 0.0);
    assert_eq!(
        validate_leader(Some(&leader()), &lifted),
        Err("Leader.annotation_offset must contain finite coordinates".into())
    );
}

fn mline(points: &[f64]) -> MLine {
    MLine {
        flags: 1,
        scale_factor: num(1.0),
        normal: at(0.0, 0.0, 1.0),
        style_name: "Standard".into(),
        style_handle: None,
        vertices: Arc::new(
            points
                .iter()
                .map(|x| MLineVertex {
                    position: at(*x, 0.0, 0.0),
                    direction: at(1.0, 0.0, 0.0),
                    miter: at(0.0, 1.0, 0.0),
                    segments: vec![MLineSegment {
                        parameters: vec![num(0.0)],
                        area_fill_parameters: Vec::new(),
                    }],
                })
                .collect(),
        ),
    }
}

#[test]
fn multilines_are_checked_where_they_change() {
    assert_eq!(validate_mline(None, &mline(&[0.0, 1.0])), Ok(()));
    let mut flagged = mline(&[0.0, 1.0]);
    flagged.flags = 0x10;
    assert_eq!(validate_mline(None, &flagged), Err("MLine.flags has unknown bits".into()));
    let mut closed = mline(&[0.0, 1.0]);
    closed.flags = 3;
    assert_eq!(
        validate_mline(None, &closed),
        Err("closed MLine requires at least 3 vertices".into())
    );
    assert_eq!(
        validate_mline(None, &mline(&[2.0, 2.0, 2.0])),
        Err("MLine.vertices must not all coincide".into())
    );
    let mut flat_scale = mline(&[0.0, 1.0]);
    flat_scale.scale_factor = num(-0.0);
    assert_eq!(
        validate_mline(None, &flat_scale),
        Err("MLine.scale_factor must be finite and nonzero".into())
    );
    assert_eq!(validate_mline(Some(&flat_scale), &flat_scale), Ok(()));
    let mut cut = mline(&[0.0, 1.0]);
    Arc::make_mut(&mut cut.vertices)[1].segments[0].area_fill_parameters.push(num(f64::NAN));
    assert_eq!(
        validate_mline(Some(&mline(&[0.0, 1.0])), &cut),
        Err("MLine.vertices[1].segments[0] contains non-finite parameters".into())
    );
}

fn multileader() -> MultiLeader {
    let origin = at(0.0, 0.0, 0.0);
    MultiLeader {
        dogleg_length: num(0.0),
        arrowhead_size: num(0.0),
        text_height: num(1.0),
        scale_factor: num(1.0),
        block_rotation: num(0.0),
        block_scale: at(1.0, 1.0, 1.0),
        content_type: LeaderContentType::MText,
        style_handle: None,
        text_style_handle: None,
        line_type_handle: None,
        arrowhead_handle: None,
        block_content_handle: None,
        context: MultiLeaderContext {
            scale_factor: num(1.0),
            text_height: num(1.0),
            text_width: num(0.0),
            text_rotation: num(0.0),
            landing_gap: num(0.0),
            arrowhead_size: num(1.0),
            content_base_point: origin,
            text_location: origin,
            block_content_location: origin,
            base_point: origin,
            transform_matrix: vec![num(1.0); 16],
            leader_roots: vec![LeaderRoot {
                connection_point: origin,
                direction: origin,
                landing_distance: num(0.0),
                lines: vec![LeaderLine { points: vec![origin] }],
            }],
            has_text_contents: true,
            has_block_contents: false,
            text_style_handle: None,
            block_content_handle: None,
        },
    }
}

#[test]
fn multileaders_are_checked() {
    assert_eq!(validate_multileader(&multileader()), Ok(()));
    let mut values = Vec::new();
    let mut value = multileader();
    value.scale_factor = num(0.0);
    values.push((value, "MultiLeader.scale_factor must be finite and greater than zero"));
    let mut value = multileader();
    value.dogleg_length = num(-1.0);
    values.push((value, "MultiLeader.dogleg_length must be finite and non-negative"));
    let mut value = multileader();
    value.context.landing_gap = num(f64::NAN);
    values.push((value, "MultiLeader.context.landing_gap must be finite"));
    let mut value = multileader();
    value.context.leader_roots[0].lines[0].points.push(at(0.0, 0.0, f64::NAN));
    values.push((
        value,
        "MultiLeader.context.leader_roots[0].lines[0].points[1] must contain finite coordinates",
    ));
    let mut value = multileader();
    value.context.leader_roots[0].lines.push(LeaderLine { points: Vec::new() });
    values.push((value, "MultiLeader.context.leader_roots[0].lines[1] has no points"));
    let mut value = multileader();
    value.context.has_text_contents = false;
    values.push((value, "MText MultiLeader requires context.has_text_contents"));
    let mut value = multileader();
    value.content_type = LeaderContentType::Block;
    values.push((value, "Block MultiLeader requires context.has_block_contents"));
    let mut value = multileader();
    value.content_type = LeaderContentType::Empty;
    values.push((value, "MultiLeader without content cannot carry text or block contents"));
    for (value, message) in values {
        assert_eq!(validate_multileader(&value), Err(message.into()));
    }
}

fn table() -> Table {
    let cell = || TableCell {
        rotation: num(0.0),
        geometry_scale: num(1.0),
        block_scale: num(1.0),
        contents: vec![CellContent {
            rotation: num(0.0),
            scale: num(1.0),
            text_height: num(0.0),
            numeric_value: num(0.0),
            text_style_handle: None,
            block_handle: None,
        }],
    };
    Table {
        insertion_point: at(0.0, 0.0, 0.0),
        normal: at(0.0, 0.0, 1.0),
        horizontal_direction: at(1.0, 0.0, 0.0),
        break_spacing: num(0.0),
        table_style_handle: None,
        rows: (0..2)
            .map(|_| TableRow { height: num(1.0), cells: vec![cell(), cell()] })
            .collect(),
        columns: vec![TableColumn { width: num(1.0) }, TableColumn { width: num(2.0) }],
        merged_ranges: Vec::new(),
    }
}

fn range(top_row: usize, left_col: usize, bottom_row: usize, right_col: usize) -> CellRange {
    CellRange { top_row, left_col, bottom_row, right_col }
}

#[test]
fn tables_are_checked() {
    let mut merged = table();
    merged.merged_ranges = vec![range(0, 0, 0, 1), range(1, 0, 1, 1)];
    assert_eq!(validate_table(&merged), Ok(()));
    let mut values = Vec::new();
    let mut value = table();
    value.columns.clear();
    values.push((value, "Table requires at least one row and one column"));
    let mut value = table();
    value.columns[1].width = num(0.0);
    values.push((value, "Table.columns[1].width must be finite and greater than zero"));
    let mut value = table();
    value.rows[1].cells.pop();
    values.push((value, "Table.rows[1] has 1 cells but the table has 2 columns"));
    let mut value = table();
    value.rows[0].cells[1].contents[0].text_height = num(-1.0);
    values.push((
        value,
        "Table.rows[0].cells[1].contents[0] has invalid rotation, scale or text height",
    ));
    let mut value = table();
    value.rows[0].cells[1].contents[0].numeric_value = num(f64::NAN);
    values.push((
        value,
        "Table.rows[0].cells[1].contents[0].value.numeric_value must be finite",
    ));
    let mut value = table();
    value.merged_ranges = vec![range(0, 0, 2, 0)];
    values.push((value, "Table.merged_ranges[0] lies outside the 2x2 grid"));
    let mut value = table();
    value.merged_ranges = vec![range(0, 0, 0, 0), range(1, 1, 1, 1), range(0, 0, 1, 0)];
    values.push((value, "Table.merged_ranges[0] overlaps merged_ranges[2]"));
    for (value, message) in values {
        assert_eq!(validate_table(&value), Err(message.into()));
    }
}
