//! Which new entities are accepted, kind by kind, in plain terms.

use crate::creation_rules::new_entity_fault;
use crate::dimension_rules::{dimension_fault, dimension_geometry_fault};
use crate::entities::{
    AttributeText, BoundaryPath, CellRange, DimensionGeometry, EdgeShape, EntityData, EntityType,
    Hatch, HatchPatternLine, LeaderCreationType, LeaderLine, LeaderRoot, MLineSegment, MLineVertex,
    MultiLeader, MultiLeaderContext, Table, TableCell, TableRow,
};
use crate::geometry::{Vector2, Vector3};
use crate::hatch_rules::{
    all_finite, ascending, edge_checks, edge_fault, edge_name, gap_checks, hatch_paths_fault,
    hatch_pattern_fault, path_checks, path_fault, pattern_line_checks, planar_checks, seed_checks,
    seed_points_fault,
};
use crate::leader_rules::{
    leader_context_fault, leader_vertices_fault, line_checks, mline_fault, mline_vertex_checks,
    mline_vertices_fault, multileader_fault, root_checks, segment_checks,
};
use crate::plain::{
    above_zero, all_checks_pass, bounded, leaning, lower, number_at_all, numbers_in_plain_terms,
    off_zero, one_word, order_in_plain_terms, plain_number, plain_order, pointing,
    points_in_plain_terms, real_point, real_spot, size, text_in_plain_terms, tiny, together,
    unit_long, written, zero_or_above,
};
use crate::scalar::Scalar;
use crate::table_rules::{
    cell_checks, column_checks, content_checks, overlap_checks, range_checks, row_checks,
    table_fault,
};
use crate::text::alike;
use vstd::prelude::*;
use vstd::string::*;

verus! {

/// A new ray or construction line is accepted where it has a layer, a base point
/// with real coordinates and a direction of length one.
pub proof fn new_ray_is_accepted(entity: EntityType)
    ensures
        entity.data matches EntityData::Ray(value) ==> (new_entity_fault(entity) is None <==> {
            &&& written(entity.common.layer@)
            &&& real_point(value.base_point)
            &&& unit_long(value.direction)
        }),
        entity.data matches EntityData::XLine(value) ==> (new_entity_fault(entity) is None <==> {
            &&& written(entity.common.layer@)
            &&& real_point(value.base_point)
            &&& unit_long(value.direction)
        }),
{
    points_in_plain_terms();
    text_in_plain_terms();
}

/// A new planar solid or face is accepted where its corners are real; a solid also
/// needs a normal and a thickness, and a face may hide its four edges alone.
pub proof fn new_face_is_accepted(entity: EntityType)
    ensures
        entity.data matches EntityData::Solid(value) ==> (new_entity_fault(entity) is None <==> {
            &&& written(entity.common.layer@)
            &&& real_point(value.first_corner)
            &&& real_point(value.second_corner)
            &&& real_point(value.third_corner)
            &&& real_point(value.fourth_corner)
            &&& pointing(value.normal)
            &&& bounded(value.thickness)
        }),
        entity.data matches EntityData::Face3D(value) ==> (new_entity_fault(entity) is None <==> {
            &&& written(entity.common.layer@)
            &&& real_point(value.first_corner)
            &&& real_point(value.second_corner)
            &&& real_point(value.third_corner)
            &&& real_point(value.fourth_corner)
            &&& value.invisible_edges < 16
        }),
{
    numbers_in_plain_terms();
    points_in_plain_terms();
    text_in_plain_terms();
}

/// A new tolerance frame is accepted where it has a place, a unit direction, a
/// normal, text, the name of a style and a text height above zero.
pub proof fn new_tolerance_is_accepted(entity: EntityType)
    ensures
        entity.data matches EntityData::Tolerance(value) ==> (new_entity_fault(entity) is None
            <==> {
            &&& written(entity.common.layer@)
            &&& real_point(value.insertion_point)
            &&& unit_long(value.direction)
            &&& pointing(value.normal)
            &&& written(value.text@)
            &&& written(value.dimension_style_name@)
            &&& above_zero(value.text_height)
            &&& bounded(value.dimension_gap)
        }),
{
    numbers_in_plain_terms();
    points_in_plain_terms();
    text_in_plain_terms();
}

/// A new glyph is accepted where it has a place, a normal, a size, the name and a
/// number of a shape, a width, a slant below a right angle and the name of a style.
pub proof fn new_shape_is_accepted(entity: EntityType)
    ensures
        entity.data matches EntityData::Shape(value) ==> (new_entity_fault(entity) is None <==> {
            &&& written(entity.common.layer@)
            &&& real_point(value.insertion_point)
            &&& pointing(value.normal)
            &&& above_zero(value.size)
            &&& written(value.shape_name@)
            &&& 0 < value.shape_number < 32768
            &&& bounded(value.rotation)
            &&& off_zero(value.relative_x_scale)
            &&& leaning(value.oblique_angle)
            &&& bounded(value.thickness)
            &&& written(value.style_name@)
        }),
{
    numbers_in_plain_terms();
    points_in_plain_terms();
    text_in_plain_terms();
}

/// The text of an attribute is sound: it has a place, a normal, a tag of one word, a
/// height, a width, a slant below a right angle and the name of a style.
pub open spec fn sound_attribute(text: AttributeText) -> bool {
    &&& real_point(text.insertion_point)
    &&& real_point(text.alignment_point)
    &&& pointing(text.normal)
    &&& one_word(text.tag@)
    &&& above_zero(text.height)
    &&& bounded(text.rotation)
    &&& off_zero(text.width_factor)
    &&& leaning(text.oblique_angle)
    &&& written(text.text_style@)
    &&& 0 <= text.field_length
    &&& 0 < text.line_count
}

/// A new attribute or attribute definition is accepted where its text is sound.
pub proof fn new_attribute_is_accepted(entity: EntityType)
    ensures
        entity.data matches EntityData::AttributeDefinition(value) ==> (
        new_entity_fault(entity) is None <==> written(entity.common.layer@) && sound_attribute(
            value.text,
        )),
        entity.data matches EntityData::AttributeEntity(value) ==> (
        new_entity_fault(entity) is None <==> written(entity.common.layer@) && sound_attribute(
            value.text,
        )),
{
    numbers_in_plain_terms();
    points_in_plain_terms();
    text_in_plain_terms();
}

/// The points of a dimension are real, and where it measures between two of them,
/// they are apart.
pub open spec fn sound_measure(geometry: DimensionGeometry) -> bool {
    match geometry {
        DimensionGeometry::Aligned(d) => {
            &&& real_point(d.definition_point)
            &&& real_point(d.first_point)
            &&& real_point(d.second_point)
            &&& bounded(d.ext_line_rotation)
            &&& !together(d.first_point, d.second_point)
        },
        DimensionGeometry::Linear(d) => {
            &&& real_point(d.definition_point)
            &&& real_point(d.first_point)
            &&& real_point(d.second_point)
            &&& bounded(d.rotation)
            &&& bounded(d.ext_line_rotation)
            &&& !together(d.first_point, d.second_point)
        },
        DimensionGeometry::Radius(d) => {
            &&& real_point(d.definition_point)
            &&& real_point(d.angle_vertex)
            &&& bounded(d.leader_length)
            &&& !together(d.definition_point, d.angle_vertex)
        },
        DimensionGeometry::Diameter(d) => {
            &&& real_point(d.definition_point)
            &&& real_point(d.angle_vertex)
            &&& bounded(d.leader_length)
            &&& !together(d.definition_point, d.angle_vertex)
        },
        DimensionGeometry::Angular2Ln(d) => {
            &&& real_point(d.definition_point)
            &&& real_point(d.dimension_arc)
            &&& real_point(d.first_point)
            &&& real_point(d.second_point)
            &&& real_point(d.angle_vertex)
        },
        DimensionGeometry::Angular3Pt(d) => {
            &&& real_point(d.definition_point)
            &&& real_point(d.first_point)
            &&& real_point(d.second_point)
            &&& real_point(d.angle_vertex)
            &&& !together(d.first_point, d.angle_vertex)
            &&& !together(d.second_point, d.angle_vertex)
        },
        DimensionGeometry::Ordinate(d) => {
            &&& real_point(d.definition_point)
            &&& real_point(d.feature_location)
            &&& real_point(d.leader_endpoint)
        },
        DimensionGeometry::Arc(d) => {
            &&& real_point(d.definition_point)
            &&& real_point(d.first_extension_point)
            &&& real_point(d.second_extension_point)
            &&& real_point(d.center_point)
            &&& real_point(d.first_leader_point)
            &&& real_point(d.second_leader_point)
            &&& bounded(d.arc_start_parameter)
            &&& bounded(d.arc_end_parameter)
            &&& !together(d.first_extension_point, d.second_extension_point)
        },
        DimensionGeometry::LargeRadial(d) => {
            &&& real_point(d.definition_point)
            &&& real_point(d.chord_point)
            &&& real_point(d.override_center)
            &&& real_point(d.jog_point)
            &&& bounded(d.jog_angle)
            &&& !together(d.definition_point, d.chord_point)
        },
    }
}

/// A dimension is sound.
pub open spec fn sound_dimension(value: crate::entities::Dimension) -> bool {
    &&& pointing(value.normal)
    &&& real_point(value.text_middle_point)
    &&& bounded(value.text_rotation)
    &&& bounded(value.horizontal_direction)
    &&& written(value.style_name@)
    &&& sound_measure(value.geometry)
    &&& bounded(value.measurement)
}

/// The rules for dimensions pass the sound ones and no others.
pub proof fn dimension_rules_pass_sound_ones(value: &crate::entities::Dimension)
    ensures
        dimension_geometry_fault(value.geometry) is None <==> sound_measure(value.geometry),
        dimension_fault(*value) is None <==> sound_dimension(*value),
{
    numbers_in_plain_terms();
    points_in_plain_terms();
    text_in_plain_terms();
}

/// A new dimension is accepted where it is sound: with a normal, real points and
/// numbers, the name of a style and a finite measure, and with the points that it
/// measures between apart.
pub proof fn new_dimension_is_accepted(entity: EntityType)
    ensures
        entity.data matches EntityData::Dimension(value) ==> (new_entity_fault(entity) is None
            <==> written(entity.common.layer@) && sound_dimension(*value)),
{
    if entity.data is Dimension {
        dimension_rules_pass_sound_ones(&entity.data->Dimension_0);
    }
    text_in_plain_terms();
}

/// Every number is bounded.
pub open spec fn all_bounded(values: Seq<Scalar>) -> bool {
    forall|i: int| 0 <= i < values.len() ==> bounded(#[trigger] values[i])
}

/// Every point is real.
pub open spec fn all_real(points: Seq<Vector3>) -> bool {
    forall|i: int| 0 <= i < points.len() ==> real_point(#[trigger] points[i])
}

proof fn lists_in_plain_terms()
    ensures
        forall|values: Seq<Scalar>| #[trigger] all_bounded(values) == all_finite(values),
{
    numbers_in_plain_terms();
    assert forall|values: Seq<Scalar>| #[trigger] all_bounded(values) == all_finite(values) by {
        if all_bounded(values) {
            assert forall|i: int| 0 <= i < values.len() implies (
            #[trigger] values[i]).finite() by {
                assert(bounded(values[i]));
            }
        }
        if all_finite(values) {
            assert forall|i: int| 0 <= i < values.len() implies bounded(
                #[trigger] values[i],
            ) by {
                assert(values[i].finite());
            }
        }
    }
}

proof fn points_pass(points: Seq<Vector3>, name: Seq<char>)
    ensures
        crate::text::earliest(
            0,
            points.len() as int,
            crate::leader_rules::point_checks(points, name),
        ) is None <==> all_real(points),
{
    points_in_plain_terms();
    let checks = crate::leader_rules::point_checks(points, name);
    all_checks_pass(0, points.len() as int, checks);
    if all_real(points) {
        assert forall|i: int| 0 <= i < points.len() implies #[trigger] checks(i) is None by {
            assert(real_point(points[i]));
        }
    }
    if forall|i: int| 0 <= i < points.len() ==> #[trigger] checks(i) is None {
        assert forall|i: int| 0 <= i < points.len() implies real_point(#[trigger] points[i]) by {
            assert(checks(i) is None);
        }
    }
}

/// Two points of a chain that follow each other are apart.
pub open spec fn stretched(points: Seq<Vector3>) -> bool {
    exists|i: int| 0 < i < points.len() && !together(#[trigger] points[i], points[i - 1])
}

/// The chain of a leader: at least two points, all real, and not all in one place.
pub open spec fn sound_chain(points: Seq<Vector3>) -> bool {
    points.len() >= 2 && all_real(points) && stretched(points)
}

/// The rules for the chain of a leader pass the sound ones and no others.
pub proof fn chain_rules_pass_sound_ones(points: Seq<Vector3>)
    ensures
        leader_vertices_fault(points) is None <==> sound_chain(points),
{
    points_in_plain_terms();
    points_pass(points, "Leader.vertices["@);
    if stretched(points) {
        let i = choose|i: int|
            0 < i < points.len() && !together(#[trigger] points[i], points[i - 1]);
        assert(!points[i].coincident(points[i - 1]));
    } else {
        assert forall|i: int| 0 < i < points.len() implies (#[trigger] points[i]).coincident(
            points[i - 1],
        ) by {
            assert(together(points[i], points[i - 1]));
        }
    }
}

/// A leader is sound.
pub open spec fn sound_leader(value: crate::entities::Leader) -> bool {
    &&& sound_chain(value.vertices@)
    &&& pointing(value.normal)
    &&& pointing(value.horizontal_direction)
    &&& real_point(value.block_offset)
    &&& real_point(value.annotation_offset)
    &&& above_zero(value.text_height)
    &&& zero_or_above(value.text_width)
    &&& written(value.dimension_style@)
    &&& (value.creation_type == LeaderCreationType::NoAnnotation ==> value.annotation_handle.value
        == 0)
}

/// A new leader is accepted where its chain, its directions, its offsets and its
/// sizes are sound, it names a style, and it has an annotation only where its kind
/// allows one.
pub proof fn new_leader_is_accepted(entity: EntityType)
    ensures
        entity.data matches EntityData::Leader(value) ==> (new_entity_fault(entity) is None
            <==> written(entity.common.layer@) && sound_leader(*value)),
{
    numbers_in_plain_terms();
    points_in_plain_terms();
    text_in_plain_terms();
    if entity.data is Leader {
        chain_rules_pass_sound_ones(entity.data->Leader_0.vertices@);
    }
}

/// A vertex of a multiline is real, with all its cuts.
pub open spec fn sound_vertex(vertex: MLineVertex) -> bool {
    &&& real_point(vertex.position)
    &&& real_point(vertex.direction)
    &&& real_point(vertex.miter)
    &&& forall|i: int|
        0 <= i < vertex.segments.len() ==> all_bounded((#[trigger] vertex.segments@[i]).parameters@)
            && all_bounded(vertex.segments@[i].area_fill_parameters@)
}

/// Two vertices of a multiline that follow each other are apart.
pub open spec fn mline_stretched(vertices: Seq<MLineVertex>) -> bool {
    exists|i: int|
        0 < i < vertices.len() && !together(
            (#[trigger] vertices[i]).position,
            vertices[i - 1].position,
        )
}

/// The vertices of a multiline: at least two, all sound, and not all in one place.
pub open spec fn sound_vertices(vertices: Seq<MLineVertex>) -> bool {
    &&& vertices.len() >= 2
    &&& forall|i: int| 0 <= i < vertices.len() ==> sound_vertex(#[trigger] vertices[i])
    &&& mline_stretched(vertices)
}

proof fn segments_pass(segments: Seq<MLineSegment>, name: Seq<char>)
    ensures
        crate::text::earliest(0, segments.len() as int, segment_checks(segments, name)) is None
            <==> (forall|i: int|
            0 <= i < segments.len() ==> all_bounded((#[trigger] segments[i]).parameters@)
                && all_bounded(segments[i].area_fill_parameters@)),
{
    lists_in_plain_terms();
    let checks = segment_checks(segments, name);
    all_checks_pass(0, segments.len() as int, checks);
    assert forall|i: int| 0 <= i < segments.len() implies (#[trigger] checks(i) is None) == (
    all_bounded(segments[i].parameters@) && all_bounded(segments[i].area_fill_parameters@)) by {}
    if forall|i: int| 0 <= i < segments.len() ==> #[trigger] checks(i) is None {
        assert forall|i: int| 0 <= i < segments.len() implies all_bounded(
            (#[trigger] segments[i]).parameters@,
        ) && all_bounded(segments[i].area_fill_parameters@) by {
            assert(checks(i) is None);
        }
    }
}

/// The rules for the vertices of a multiline pass the sound ones and no others.
pub proof fn vertex_rules_pass_sound_ones(vertices: Seq<MLineVertex>)
    ensures
        mline_vertices_fault(vertices) is None <==> sound_vertices(vertices),
{
    points_in_plain_terms();
    let checks = mline_vertex_checks(vertices);
    all_checks_pass(0, vertices.len() as int, checks);
    assert forall|i: int| 0 <= i < vertices.len() implies (#[trigger] checks(i) is None)
        == sound_vertex(vertices[i]) by {
        let name = "MLine.vertices["@ + crate::text::decimal(i as nat) + "]"@;
        segments_pass(vertices[i].segments@, name);
    }
    if forall|i: int| 0 <= i < vertices.len() ==> #[trigger] checks(i) is None {
        assert forall|i: int| 0 <= i < vertices.len() implies sound_vertex(
            #[trigger] vertices[i],
        ) by {
            assert(checks(i) is None);
        }
    }
    if forall|i: int| 0 <= i < vertices.len() ==> sound_vertex(#[trigger] vertices[i]) {
        assert forall|i: int| 0 <= i < vertices.len() implies #[trigger] checks(i) is None by {
            assert(sound_vertex(vertices[i]));
        }
    }
    if mline_stretched(vertices) {
        let i = choose|i: int|
            0 < i < vertices.len() && !together(
                (#[trigger] vertices[i]).position,
                vertices[i - 1].position,
            );
        assert(!vertices[i].position.coincident(vertices[i - 1].position));
    } else {
        assert forall|i: int| 0 < i < vertices.len() implies (
        #[trigger] vertices[i]).position.coincident(vertices[i - 1].position) by {
            assert(together(vertices[i].position, vertices[i - 1].position));
        }
    }
}

/// A multiline is sound: known flags, a scale other than zero, a normal, the name
/// of a style, and vertices, of which a closed one needs three.
pub open spec fn sound_mline(value: crate::entities::MLine) -> bool {
    &&& value.flags < 16
    &&& bounded(value.scale_factor) && size(value.scale_factor) != 0
    &&& pointing(value.normal)
    &&& written(value.style_name@)
    &&& sound_vertices(value.vertices@)
    &&& (value.flags as int % 4 >= 2 ==> value.vertices@.len() >= 3)
}

/// The second flag of a multiline marks a closed one.
pub proof fn closed_flag(flags: u16)
    ensures
        crate::leader_rules::mline_closed(flags) == (flags as int % 4 >= 2),
{
    assert((flags / 2 % 2 == 1) == (flags % 4 >= 2)) by (bit_vector);
}

/// The rules for multilines pass the sound ones and no others.
pub proof fn mline_rules_pass_sound_ones(value: &crate::entities::MLine)
    ensures
        mline_fault(None, *value) is None <==> sound_mline(*value),
{
    points_in_plain_terms();
    text_in_plain_terms();
    vertex_rules_pass_sound_ones(value.vertices@);
    plain_number(value.scale_factor);
    closed_flag(value.flags);
    assert(written(value.style_name@) == !crate::text::blank(value.style_name@));
    assert(pointing(value.normal) == (value.normal.finite() && value.normal.length.positive()));
}

/// A new multiline is accepted where it is sound.
pub proof fn new_mline_is_accepted(entity: EntityType)
    ensures
        entity.data matches EntityData::MLine(value) ==> (new_entity_fault(entity) is None
            <==> written(entity.common.layer@) && sound_mline(*value)),
{
    text_in_plain_terms();
    if entity.data is MLine {
        mline_rules_pass_sound_ones(&entity.data->MLine_0);
    }
}

/// A multileader's line has points, all real.
pub open spec fn sound_line(line: LeaderLine) -> bool {
    line.points@.len() > 0 && all_real(line.points@)
}

/// A landing of a multileader is real, with all its lines.
pub open spec fn sound_root(root: LeaderRoot) -> bool {
    &&& real_point(root.connection_point)
    &&& real_point(root.direction)
    &&& bounded(root.landing_distance)
    &&& forall|i: int| 0 <= i < root.lines@.len() ==> sound_line(#[trigger] root.lines@[i])
}

/// The content of a multileader is real, with all its landings.
pub open spec fn sound_context(context: MultiLeaderContext) -> bool {
    &&& above_zero(context.scale_factor)
    &&& bounded(context.text_height)
    &&& bounded(context.text_width)
    &&& bounded(context.text_rotation)
    &&& bounded(context.landing_gap)
    &&& bounded(context.arrowhead_size)
    &&& real_point(context.content_base_point)
    &&& real_point(context.text_location)
    &&& real_point(context.block_content_location)
    &&& real_point(context.base_point)
    &&& all_bounded(context.transform_matrix@)
    &&& forall|i: int|
        0 <= i < context.leader_roots@.len() ==> sound_root(#[trigger] context.leader_roots@[i])
}

/// A multileader is sound: its sizes and its content are, and it holds what its
/// type says.
pub open spec fn sound_multileader(value: MultiLeader) -> bool {
    &&& zero_or_above(value.dogleg_length)
    &&& zero_or_above(value.arrowhead_size)
    &&& above_zero(value.text_height)
    &&& above_zero(value.scale_factor)
    &&& bounded(value.block_rotation)
    &&& real_point(value.block_scale)
    &&& sound_context(value.context)
    &&& (value.content_type is MText ==> value.context.has_text_contents)
    &&& (value.content_type is Block ==> value.context.has_block_contents)
    &&& (value.content_type is Empty ==> !value.context.has_text_contents
        && !value.context.has_block_contents)
}

proof fn lines_pass(lines: Seq<LeaderLine>, name: Seq<char>)
    ensures
        crate::text::earliest(0, lines.len() as int, line_checks(lines, name)) is None <==> (
        forall|i: int| 0 <= i < lines.len() ==> sound_line(#[trigger] lines[i])),
{
    let checks = line_checks(lines, name);
    all_checks_pass(0, lines.len() as int, checks);
    assert forall|i: int| 0 <= i < lines.len() implies (#[trigger] checks(i) is None)
        == sound_line(lines[i]) by {
        let line = name + crate::text::decimal(i as nat) + "]"@;
        points_pass(lines[i].points@, line + ".points["@);
    }
    if forall|i: int| 0 <= i < lines.len() ==> #[trigger] checks(i) is None {
        assert forall|i: int| 0 <= i < lines.len() implies sound_line(#[trigger] lines[i]) by {
            assert(checks(i) is None);
        }
    }
}

proof fn roots_pass(roots: Seq<LeaderRoot>)
    ensures
        crate::text::earliest(0, roots.len() as int, root_checks(roots)) is None <==> (forall|
            i: int,
        |
            0 <= i < roots.len() ==> sound_root(#[trigger] roots[i])),
{
    let checks = root_checks(roots);
    all_checks_pass(0, roots.len() as int, checks);
    assert forall|i: int| 0 <= i < roots.len() implies (#[trigger] checks(i) is None)
        == sound_root(roots[i]) by {
        let root = "MultiLeader.context.leader_roots["@ + crate::text::decimal(i as nat) + "]"@;
        lines_pass(roots[i].lines@, root + ".lines["@);
        points_in_plain_terms();
        plain_number(roots[i].landing_distance);
    }
    if forall|i: int| 0 <= i < roots.len() ==> #[trigger] checks(i) is None {
        assert forall|i: int| 0 <= i < roots.len() implies sound_root(#[trigger] roots[i]) by {
            assert(checks(i) is None);
        }
    }
}

/// The rules for the content of multileaders pass the sound one and no other.
pub proof fn context_rules_pass_sound_ones(context: MultiLeaderContext)
    ensures
        leader_context_fault(context) is None <==> sound_context(context),
{
    numbers_in_plain_terms();
    points_in_plain_terms();
    lists_in_plain_terms();
    roots_pass(context.leader_roots@);
}

/// The rules for multileaders pass the sound ones and no others.
pub proof fn multileader_rules_pass_sound_ones(value: &MultiLeader)
    ensures
        multileader_fault(*value) is None <==> sound_multileader(*value),
{
    numbers_in_plain_terms();
    points_in_plain_terms();
    context_rules_pass_sound_ones(value.context);
}

/// A new multileader is accepted where it is sound.
pub proof fn new_multileader_is_accepted(entity: EntityType)
    ensures
        entity.data matches EntityData::MultiLeader(value) ==> (new_entity_fault(entity) is None
            <==> written(entity.common.layer@) && sound_multileader(*value)),
{
    text_in_plain_terms();
    if entity.data is MultiLeader {
        multileader_rules_pass_sound_ones(&entity.data->MultiLeader_0);
    }
}

/// A cell is real, with all its content.
pub open spec fn sound_cell(cell: TableCell) -> bool {
    &&& bounded(cell.rotation)
    &&& bounded(cell.geometry_scale)
    &&& bounded(cell.block_scale)
    &&& forall|i: int|
        0 <= i < cell.contents@.len() ==> {
            let content = #[trigger] cell.contents@[i];
            bounded(content.rotation) && bounded(content.scale) && zero_or_above(
                content.text_height,
            ) && bounded(content.numeric_value)
        }
}

/// A row has a height above zero and as many sound cells as there are columns.
pub open spec fn sound_row(row: TableRow, columns: int) -> bool {
    &&& above_zero(row.height)
    &&& row.cells@.len() == columns
    &&& forall|i: int| 0 <= i < row.cells@.len() ==> sound_cell(#[trigger] row.cells@[i])
}

/// A cell belongs to a block.
pub open spec fn covers(range: CellRange, row: int, column: int) -> bool {
    range.top_row <= row <= range.bottom_row && range.left_col <= column <= range.right_col
}

/// A block of merged cells is not turned round and lies within the table.
pub open spec fn sound_range(range: CellRange, rows: int, columns: int) -> bool {
    range.top_row <= range.bottom_row && range.left_col <= range.right_col && range.bottom_row
        < rows && range.right_col < columns
}

/// A table is sound: a place, two directions, rows and columns with a size, a cell
/// for each, and blocks of merged cells within it that share no cell.
pub open spec fn sound_table(value: Table) -> bool {
    let rows = value.rows@.len() as int;
    let columns = value.columns@.len() as int;
    &&& real_point(value.insertion_point)
    &&& pointing(value.normal)
    &&& pointing(value.horizontal_direction)
    &&& zero_or_above(value.break_spacing)
    &&& rows > 0
    &&& columns > 0
    &&& forall|i: int| 0 <= i < columns ==> above_zero((#[trigger] value.columns@[i]).width)
    &&& forall|i: int| 0 <= i < rows ==> sound_row(#[trigger] value.rows@[i], columns)
    &&& forall|i: int|
        0 <= i < value.merged_ranges@.len() ==> sound_range(
            #[trigger] value.merged_ranges@[i],
            rows,
            columns,
        )
    &&& forall|i: int, j: int, row: int, column: int|
        0 <= i < j < value.merged_ranges@.len() ==> !(#[trigger] covers(
            value.merged_ranges@[i],
            row,
            column,
        ) && #[trigger] covers(value.merged_ranges@[j], row, column))
}

proof fn contents_pass(cell: TableCell, name: Seq<char>)
    ensures
        crate::text::earliest(
            0,
            cell.contents@.len() as int,
            content_checks(cell.contents@, name),
        ) is None <==> (forall|i: int|
            0 <= i < cell.contents@.len() ==> {
                let content = #[trigger] cell.contents@[i];
                bounded(content.rotation) && bounded(content.scale) && zero_or_above(
                    content.text_height,
                ) && bounded(content.numeric_value)
            }),
{
    numbers_in_plain_terms();
    let checks = content_checks(cell.contents@, name);
    all_checks_pass(0, cell.contents@.len() as int, checks);
    assert forall|i: int| 0 <= i < cell.contents@.len() implies (#[trigger] checks(i) is None) == ({
        let content = cell.contents@[i];
        bounded(content.rotation) && bounded(content.scale) && zero_or_above(content.text_height)
            && bounded(content.numeric_value)
    }) by {}
    if forall|i: int| 0 <= i < cell.contents@.len() ==> #[trigger] checks(i) is None {
        assert forall|i: int| 0 <= i < cell.contents@.len() implies ({
            let content = #[trigger] cell.contents@[i];
            bounded(content.rotation) && bounded(content.scale) && zero_or_above(
                content.text_height,
            ) && bounded(content.numeric_value)
        }) by {
            assert(checks(i) is None);
        }
    }
}

proof fn cells_pass(cells: Seq<TableCell>, name: Seq<char>)
    ensures
        crate::text::earliest(0, cells.len() as int, cell_checks(cells, name)) is None <==> (
        forall|i: int| 0 <= i < cells.len() ==> sound_cell(#[trigger] cells[i])),
{
    let checks = cell_checks(cells, name);
    all_checks_pass(0, cells.len() as int, checks);
    assert forall|i: int| 0 <= i < cells.len() implies (#[trigger] checks(i) is None)
        == sound_cell(cells[i]) by {
        let cell = name + crate::text::decimal(i as nat) + "]"@;
        contents_pass(cells[i], cell + ".contents["@);
        numbers_in_plain_terms();
    }
    if forall|i: int| 0 <= i < cells.len() ==> #[trigger] checks(i) is None {
        assert forall|i: int| 0 <= i < cells.len() implies sound_cell(#[trigger] cells[i]) by {
            assert(checks(i) is None);
        }
    }
}

proof fn rows_pass(rows: Seq<TableRow>, columns: int)
    ensures
        crate::text::earliest(0, rows.len() as int, row_checks(rows, columns)) is None <==> (
        forall|i: int| 0 <= i < rows.len() ==> sound_row(#[trigger] rows[i], columns)),
{
    let checks = row_checks(rows, columns);
    all_checks_pass(0, rows.len() as int, checks);
    assert forall|i: int| 0 <= i < rows.len() implies (#[trigger] checks(i) is None)
        == sound_row(rows[i], columns) by {
        let row = "Table.rows["@ + crate::text::decimal(i as nat) + "]"@;
        cells_pass(rows[i].cells@, row + ".cells["@);
        plain_number(rows[i].height);
    }
    if forall|i: int| 0 <= i < rows.len() ==> #[trigger] checks(i) is None {
        assert forall|i: int| 0 <= i < rows.len() implies sound_row(
            #[trigger] rows[i],
            columns,
        ) by {
            assert(checks(i) is None);
        }
    }
}

proof fn columns_pass(columns: Seq<crate::entities::TableColumn>)
    ensures
        crate::text::earliest(0, columns.len() as int, column_checks(columns)) is None <==> (
        forall|i: int| 0 <= i < columns.len() ==> above_zero((#[trigger] columns[i]).width)),
{
    let checks = column_checks(columns);
    all_checks_pass(0, columns.len() as int, checks);
    assert forall|i: int| 0 <= i < columns.len() implies (#[trigger] checks(i) is None)
        == above_zero(columns[i].width) by {
        plain_number(columns[i].width);
    }
    if forall|i: int| 0 <= i < columns.len() ==> #[trigger] checks(i) is None {
        assert forall|i: int| 0 <= i < columns.len() implies above_zero(
            (#[trigger] columns[i]).width,
        ) by {
            assert(checks(i) is None);
        }
    }
}

/// Two blocks that are not turned round are told apart where they share no cell.
pub proof fn blocks_are_apart(a: CellRange, b: CellRange)
    requires
        a.top_row <= a.bottom_row,
        a.left_col <= a.right_col,
        b.top_row <= b.bottom_row,
        b.left_col <= b.right_col,
    ensures
        crate::table_rules::apart(a, b) <==> (forall|row: int, column: int|
            !(#[trigger] covers(a, row, column) && #[trigger] covers(b, row, column))),
{
    if !crate::table_rules::apart(a, b) {
        let row: int = if a.top_row >= b.top_row {
            a.top_row as int
        } else {
            b.top_row as int
        };
        let column: int = if a.left_col >= b.left_col {
            a.left_col as int
        } else {
            b.left_col as int
        };
        assert(covers(a, row, column) && covers(b, row, column));
    }
}

proof fn ranges_pass(ranges: Seq<CellRange>, rows: int, columns: int)
    ensures
        crate::text::earliest(
            0,
            ranges.len() as int,
            range_checks(ranges, rows, columns),
        ) is None <==> {
            &&& forall|i: int|
                0 <= i < ranges.len() ==> sound_range(#[trigger] ranges[i], rows, columns)
            &&& forall|i: int, j: int|
                0 <= i < j < ranges.len() ==> crate::table_rules::apart(
                    #[trigger] ranges[i],
                    #[trigger] ranges[j],
                )
        },
{
    let checks = range_checks(ranges, rows, columns);
    let count = ranges.len() as int;
    all_checks_pass(0, count, checks);
    assert forall|i: int| 0 <= i < count implies (#[trigger] checks(i) is None) == (sound_range(
        ranges[i],
        rows,
        columns,
    ) && forall|j: int| i < j < count ==> #[trigger] overlap_checks(ranges, i)(j) is None) by {
        all_checks_pass(i + 1, count, overlap_checks(ranges, i));
    }
    if forall|i: int| 0 <= i < count ==> #[trigger] checks(i) is None {
        assert forall|i: int| 0 <= i < count implies sound_range(
            #[trigger] ranges[i],
            rows,
            columns,
        ) by {
            assert(checks(i) is None);
        }
        assert forall|i: int, j: int| 0 <= i < j < count implies crate::table_rules::apart(
            #[trigger] ranges[i],
            #[trigger] ranges[j],
        ) by {
            assert(checks(i) is None);
            assert(overlap_checks(ranges, i)(j) is None);
        }
    }
    if (forall|i: int| 0 <= i < count ==> sound_range(#[trigger] ranges[i], rows, columns)) && (
    forall|i: int, j: int|
        0 <= i < j < count ==> crate::table_rules::apart(
            #[trigger] ranges[i],
            #[trigger] ranges[j],
        )) {
        assert forall|i: int| 0 <= i < count implies #[trigger] checks(i) is None by {
            assert(sound_range(ranges[i], rows, columns));
            assert forall|j: int| i < j < count implies #[trigger] overlap_checks(ranges, i)(
                j,
            ) is None by {
                assert(crate::table_rules::apart(ranges[i], ranges[j]));
            }
        }
    }
}

/// The rules for tables pass the sound ones and no others.
pub proof fn table_rules_pass_sound_ones(value: &Table)
    ensures
        table_fault(*value) is None <==> sound_table(*value),
{
    points_in_plain_terms();
    let ranges = value.merged_ranges@;
    let rows = value.rows@.len() as int;
    let columns = value.columns@.len() as int;
    plain_number(value.break_spacing);
    columns_pass(value.columns@);
    rows_pass(value.rows@, columns);
    ranges_pass(ranges, rows, columns);
    if forall|i: int| 0 <= i < ranges.len() ==> sound_range(#[trigger] ranges[i], rows, columns) {
        assert forall|i: int, j: int| 0 <= i < j < ranges.len() implies (
        crate::table_rules::apart(#[trigger] ranges[i], #[trigger] ranges[j]) <==> (forall|
            row: int,
            column: int,
        |
            !(#[trigger] covers(ranges[i], row, column) && #[trigger] covers(
                ranges[j],
                row,
                column,
            )))) by {
            blocks_are_apart(ranges[i], ranges[j]);
        }
    }
    assert(pointing(value.normal) == (value.normal.finite() && value.normal.length.positive()));
    assert(pointing(value.horizontal_direction) == (value.horizontal_direction.finite()
        && value.horizontal_direction.length.positive()));
}

/// A new table is accepted where it is sound.
pub proof fn new_table_is_accepted(entity: EntityType)
    ensures
        entity.data matches EntityData::Table(value) ==> (new_entity_fault(entity) is None
            <==> written(entity.common.layer@) && sound_table(*value)),
{
    text_in_plain_terms();
    if entity.data is Table {
        table_rules_pass_sound_ones(&entity.data->Table_0);
    }
}

/// Every point of a plane is real.
pub open spec fn all_spots(points: Seq<Vector2>) -> bool {
    forall|i: int| 0 <= i < points.len() ==> real_spot(#[trigger] points[i])
}

/// Every knot is bounded, and none is lower than the one before it.
pub open spec fn sound_knots(knots: Seq<Scalar>) -> bool {
    all_bounded(knots) && forall|i: int|
        0 < i < knots.len() ==> !lower(#[trigger] knots[i], knots[i - 1])
}

/// A piece of a boundary is sound.
pub open spec fn sound_edge(shape: EdgeShape) -> bool {
    match shape {
        EdgeShape::Line(line) => real_spot(line.start) && real_spot(line.end) && !tiny(line.length),
        EdgeShape::CircularArc(arc) => real_spot(arc.center) && above_zero(arc.radius) && bounded(
            arc.start_angle,
        ) && bounded(arc.end_angle),
        EdgeShape::EllipticArc(arc) => {
            &&& real_spot(arc.center)
            &&& real_spot(arc.major_axis_endpoint)
            &&& !tiny(arc.major_axis_length)
            &&& 0 < arc.minor_axis_ratio.bits <= 0x3ff0_0000_0000_0000
            &&& bounded(arc.start_angle)
            &&& bounded(arc.end_angle)
        },
        EdgeShape::Polyline(poly) => poly.vertices@.len() >= 3 && all_real(poly.vertices@)
            && poly.is_closed,
        EdgeShape::Spline(spline) => {
            &&& spline.degree > 0
            &&& spline.control_points@.len() > spline.degree
            &&& sound_knots(spline.knots@)
            &&& all_real(spline.control_points@)
            &&& all_spots(spline.fit_points@)
            &&& real_spot(spline.start_tangent)
            &&& real_spot(spline.end_tangent)
        },
    }
}

/// The pieces meet: the gap is a number of at most `1e-8`.
pub open spec fn closing(gap: Scalar) -> bool {
    number_at_all(gap) && (gap.bits >= 0x8000_0000_0000_0000 || gap.bits
        <= 0x3e45_798e_e230_8c3a)
}

/// A boundary path is sound: it has pieces, is not marked open, uses known flags,
/// and its pieces are sound and meet.
pub open spec fn sound_path(path: BoundaryPath) -> bool {
    &&& path.edges@.len() > 0
    &&& path.flags as int % 64 < 32
    &&& path.flags < 512
    &&& forall|i: int| 0 <= i < path.edges@.len() ==> sound_edge((#[trigger] path.edges@[i]).shape)
    &&& forall|i: int| 0 <= i < path.edges@.len() ==> closing((#[trigger] path.edges@[i]).gap)
}

/// The paths of a hatch: at least one, and all sound.
pub open spec fn sound_paths(paths: Seq<BoundaryPath>) -> bool {
    paths.len() > 0 && forall|i: int| 0 <= i < paths.len() ==> sound_path(#[trigger] paths[i])
}

proof fn corners_pass(name: Seq<char>, points: Seq<Vector3>)
    ensures
        crate::text::earliest(
            0,
            points.len() as int,
            crate::hatch_rules::point_checks(name, points),
        ) is None <==> all_real(points),
{
    points_in_plain_terms();
    let checks = crate::hatch_rules::point_checks(name, points);
    all_checks_pass(0, points.len() as int, checks);
    assert forall|i: int| 0 <= i < points.len() implies (#[trigger] checks(i) is None)
        == real_point(points[i]) by {}
    if forall|i: int| 0 <= i < points.len() ==> #[trigger] checks(i) is None {
        assert forall|i: int| 0 <= i < points.len() implies real_point(#[trigger] points[i]) by {
            assert(checks(i) is None);
        }
    }
}

proof fn spots_pass(name: Seq<char>, points: Seq<Vector2>)
    ensures
        crate::text::earliest(0, points.len() as int, planar_checks(name, points)) is None
            <==> all_spots(points),
{
    points_in_plain_terms();
    let checks = planar_checks(name, points);
    all_checks_pass(0, points.len() as int, checks);
    assert forall|i: int| 0 <= i < points.len() implies (#[trigger] checks(i) is None)
        == real_spot(points[i]) by {}
    if forall|i: int| 0 <= i < points.len() ==> #[trigger] checks(i) is None {
        assert forall|i: int| 0 <= i < points.len() implies real_spot(#[trigger] points[i]) by {
            assert(checks(i) is None);
        }
    }
}

proof fn knots_pass(knots: Seq<Scalar>)
    ensures
        ascending(knots) == sound_knots(knots),
{
    numbers_in_plain_terms();
    order_in_plain_terms();
    lists_in_plain_terms();
    if ascending(knots) {
        assert forall|i: int| 0 < i < knots.len() implies !lower(
            #[trigger] knots[i],
            knots[i - 1],
        ) by {
            assert(!knots[i].below(knots[i - 1]));
        }
    }
    if sound_knots(knots) {
        assert forall|i: int| 0 < i < knots.len() implies !(#[trigger] knots[i]).below(
            knots[i - 1],
        ) by {
            assert(!lower(knots[i], knots[i - 1]));
        }
    }
}

proof fn ratio_passes(ratio: Scalar)
    ensures
        (crate::geometry::proper(ratio) && ratio.at_most(
            Scalar { bits: crate::scalar::ONE_BITS },
        )) == (0 < ratio.bits <= 0x3ff0_0000_0000_0000),
{
    let one = Scalar { bits: crate::scalar::ONE_BITS };
    plain_number(ratio);
    plain_number(one);
    plain_order(ratio, one);
}

/// The rules for the pieces of a boundary pass the sound ones and no others.
pub proof fn edge_rules_pass_sound_ones(name: Seq<char>, shape: EdgeShape)
    ensures
        edge_fault(name, shape) is None <==> sound_edge(shape),
{
    numbers_in_plain_terms();
    points_in_plain_terms();
    order_in_plain_terms();
    match shape {
        EdgeShape::EllipticArc(arc) => ratio_passes(arc.minor_axis_ratio),
        EdgeShape::Polyline(poly) => corners_pass(name + " vertex "@, poly.vertices@),
        EdgeShape::Spline(spline) => {
            knots_pass(spline.knots@);
            corners_pass(name + " control point "@, spline.control_points@);
            spots_pass(name + " fit point "@, spline.fit_points@);
        },
        _ => {},
    }
}

proof fn gap_passes(gap: Scalar)
    ensures
        gap.at_most(Scalar { bits: crate::hatch_rules::GAP_BITS }) == closing(gap),
{
    let widest = Scalar { bits: crate::hatch_rules::GAP_BITS };
    plain_number(gap);
    plain_number(widest);
    plain_order(gap, widest);
}

proof fn open_flag(flags: u32)
    ensures
        (flags / 32 % 2 == 0) == (flags as int % 64 < 32),
{
    assert((flags / 32 % 2 == 0) == (flags % 64 < 32)) by (bit_vector);
}

/// The rules for boundary paths pass the sound ones and no others.
pub proof fn path_rules_pass_sound_ones(index: int, path: BoundaryPath)
    ensures
        path_fault(index, path) is None <==> sound_path(path),
{
    let edges = path.edges@;
    let count = edges.len() as int;
    let shapes = edge_checks(index, edges);
    let gaps = gap_checks(index, edges);
    open_flag(path.flags);
    all_checks_pass(0, count, shapes);
    all_checks_pass(0, count, gaps);
    assert forall|i: int| 0 <= i < count implies (#[trigger] shapes(i) is None) == sound_edge(
        edges[i].shape,
    ) by {
        edge_rules_pass_sound_ones(edge_name(index, i), edges[i].shape);
    }
    assert forall|i: int| 0 <= i < count implies (#[trigger] gaps(i) is None) == closing(
        edges[i].gap,
    ) by {
        gap_passes(edges[i].gap);
    }
    if forall|i: int| 0 <= i < count ==> #[trigger] shapes(i) is None {
        assert forall|i: int| 0 <= i < count implies sound_edge((#[trigger] edges[i]).shape) by {
            assert(shapes(i) is None);
        }
    }
    if forall|i: int| 0 <= i < count ==> #[trigger] gaps(i) is None {
        assert forall|i: int| 0 <= i < count implies closing((#[trigger] edges[i]).gap) by {
            assert(gaps(i) is None);
        }
    }
}

/// The rules for the paths of a hatch pass the sound ones and no others.
pub proof fn paths_rules_pass_sound_ones(paths: Seq<BoundaryPath>)
    ensures
        hatch_paths_fault(paths) is None <==> sound_paths(paths),
{
    let checks = path_checks(paths);
    all_checks_pass(0, paths.len() as int, checks);
    assert forall|i: int| 0 <= i < paths.len() implies (#[trigger] checks(i) is None)
        == sound_path(paths[i]) by {
        path_rules_pass_sound_ones(i, paths[i]);
    }
    if forall|i: int| 0 <= i < paths.len() ==> #[trigger] checks(i) is None {
        assert forall|i: int| 0 <= i < paths.len() implies sound_path(#[trigger] paths[i]) by {
            assert(checks(i) is None);
        }
    }
}

/// A family of pattern lines is real, and its lines are apart.
pub open spec fn sound_family(line: HatchPatternLine) -> bool {
    &&& bounded(line.angle)
    &&& real_spot(line.base_point)
    &&& real_spot(line.offset)
    &&& all_bounded(line.dash_lengths@)
    &&& !tiny(line.offset_length)
}

/// A letter in either case.
pub open spec fn letter(c: char, capital: char) -> bool {
    c as u32 == capital as u32 || c as u32 == capital as u32 + 32
}

/// The word SOLID in any mix of cases.
pub open spec fn says_solid(name: Seq<char>) -> bool {
    &&& name.len() == 5
    &&& letter(name[0], 'S')
    &&& letter(name[1], 'O')
    &&& letter(name[2], 'L')
    &&& letter(name[3], 'I')
    &&& letter(name[4], 'D')
}

/// The pattern of a hatch is sound: a solid one is called so and has no lines, and
/// any other has a name, a scale and lines.
pub open spec fn sound_pattern(value: Hatch) -> bool {
    let lines = value.pattern.lines@;
    if value.is_solid {
        says_solid(value.pattern.name@) && lines.len() == 0
    } else {
        &&& written(value.pattern.name@)
        &&& above_zero(value.pattern_scale)
        &&& lines.len() > 0
        &&& forall|i: int| 0 <= i < lines.len() ==> sound_family(#[trigger] lines[i])
    }
}

proof fn solid_is_spelled(name: Seq<char>)
    ensures
        says_solid(name) == alike(name, "SOLID"@),
        says_solid(name) ==> written(name),
{
    reveal_strlit("SOLID");
    let word = "SOLID"@;
    if alike(name, word) {
        assert(crate::text::ascii_lower(name[0]) == crate::text::ascii_lower(word[0]));
        assert(crate::text::ascii_lower(name[1]) == crate::text::ascii_lower(word[1]));
        assert(crate::text::ascii_lower(name[2]) == crate::text::ascii_lower(word[2]));
        assert(crate::text::ascii_lower(name[3]) == crate::text::ascii_lower(word[3]));
        assert(crate::text::ascii_lower(name[4]) == crate::text::ascii_lower(word[4]));
    }
    if says_solid(name) {
        assert(!crate::plain::white(name[0]));
        assert forall|i: int| 0 <= i < 5 implies crate::text::ascii_lower(#[trigger] name[i])
            == crate::text::ascii_lower(word[i]) by {
            assert(i == 0 || i == 1 || i == 2 || i == 3 || i == 4);
        }
    }
}

proof fn families_pass(lines: Seq<HatchPatternLine>)
    ensures
        crate::text::earliest(0, lines.len() as int, pattern_line_checks(lines)) is None <==> (
        forall|i: int| 0 <= i < lines.len() ==> sound_family(#[trigger] lines[i])),
{
    numbers_in_plain_terms();
    points_in_plain_terms();
    order_in_plain_terms();
    lists_in_plain_terms();
    let checks = pattern_line_checks(lines);
    all_checks_pass(0, lines.len() as int, checks);
    assert forall|i: int| 0 <= i < lines.len() implies (#[trigger] checks(i) is None)
        == sound_family(lines[i]) by {}
    if forall|i: int| 0 <= i < lines.len() ==> #[trigger] checks(i) is None {
        assert forall|i: int| 0 <= i < lines.len() implies sound_family(#[trigger] lines[i]) by {
            assert(checks(i) is None);
        }
    }
}

/// The rules for the pattern of a hatch pass the sound ones and no others.
pub proof fn pattern_rules_pass_sound_ones(value: &Hatch)
    ensures
        hatch_pattern_fault(*value) is None <==> sound_pattern(*value),
{
    text_in_plain_terms();
    solid_is_spelled(value.pattern.name@);
    families_pass(value.pattern.lines@);
    plain_number(value.pattern_scale);
    assert(written(value.pattern.name@) == !crate::text::blank(value.pattern.name@));
}

/// The rules for the seed points of a hatch ask that all be real.
pub proof fn seed_rules_pass_real_ones(points: Seq<Vector2>)
    ensures
        seed_points_fault(points) is None <==> all_spots(points),
{
    points_in_plain_terms();
    let checks = seed_checks(points);
    all_checks_pass(0, points.len() as int, checks);
    assert forall|i: int| 0 <= i < points.len() implies (#[trigger] checks(i) is None)
        == real_spot(points[i]) by {}
    if forall|i: int| 0 <= i < points.len() ==> #[trigger] checks(i) is None {
        assert forall|i: int| 0 <= i < points.len() implies real_spot(#[trigger] points[i]) by {
            assert(checks(i) is None);
        }
    }
}

/// A hatch is sound.
pub open spec fn sound_hatch(value: Hatch) -> bool {
    &&& pointing(value.normal)
    &&& bounded(value.elevation)
    &&& sound_pattern(value)
    &&& bounded(value.pattern_angle)
    &&& zero_or_above(value.pixel_size)
    &&& all_spots(value.seed_points@)
    &&& sound_paths(value.paths@)
}

/// A new hatch is accepted where it is sound: a normal, real numbers, a pattern,
/// and boundary paths whose pieces are sound and meet.
pub proof fn new_hatch_is_accepted(entity: EntityType)
    ensures
        entity.data matches EntityData::Hatch(value) ==> (new_entity_fault(entity) is None
            <==> written(entity.common.layer@) && sound_hatch(*value)),
{
    text_in_plain_terms();
    numbers_in_plain_terms();
    if entity.data is Hatch {
        let value = entity.data->Hatch_0;
        points_in_plain_terms();
        assert(pointing(value.normal) == (value.normal.finite()
            && value.normal.length.positive()));
        pattern_rules_pass_sound_ones(&value);
        seed_rules_pass_real_ones(value.seed_points@);
        paths_rules_pass_sound_ones(value.paths@);
    }
}

/// A new entity of any other kind is accepted where it has a layer, and a blank
/// layer is what is complained of first.
pub proof fn new_entity_needs_a_layer(entity: EntityType)
    ensures
        !written(entity.common.layer@) ==> new_entity_fault(entity) == Some(
            "layer name is empty"@,
        ),
        !(entity.data is Ray || entity.data is XLine || entity.data is Solid || entity.data is Face3D
            || entity.data is Tolerance || entity.data is Shape || entity.data is Leader
            || entity.data is MLine || entity.data is Dimension || entity.data is MultiLeader
            || entity.data is Table || entity.data is AttributeDefinition
            || entity.data is AttributeEntity || entity.data is Hatch) ==> (
        new_entity_fault(entity) is None <==> written(entity.common.layer@)),
{
    text_in_plain_terms();
}

} // verus!
