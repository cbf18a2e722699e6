//! What it means that an edit left a value alone, type by type.

use crate::agree::Agree;
use crate::entities::{
    AttributeEntity, AttributeRecord, AttributeText, BoundaryEdge, BoundaryPath, CellContent,
    CellRange, CircularArcEdge, Dimension, DimensionAligned, DimensionAngular2Ln,
    DimensionAngular3Pt, DimensionArc, DimensionDiameter, DimensionGeometry, DimensionLargeRadial,
    DimensionLinear, DimensionOrdinate, DimensionRadius, EdgeShape, EllipticArcEdge, Encoded,
    EntityCommon, ExtendedData, ExtendedDataRecord, HatchPattern, HatchPatternLine, LeaderLine,
    LeaderRoot, LineEdge, MLineSegment, MLineVertex, MultiLeader, MultiLeaderContext, PolylineEdge,
    RawRecord, SectionSymbolPoint, SplineEdge, Table, TableCell, TableColumn, TableRow, XDataValue,
};
use crate::geometry::{Handle, Vector2, Vector3};
use crate::plain::{left_alone, numbers_in_plain_terms, points_in_plain_terms, spot_still, still};
use crate::scalar::Scalar;
use vstd::prelude::*;
use vstd::string::*;

verus! {

/// Two lists are equally long and agree item by item.
pub open spec fn all_agree<T: Agree>(a: Seq<T>, b: Seq<T>) -> bool {
    a.len() == b.len() && forall|i: int| 0 <= i < a.len() ==> (#[trigger] a[i]).agrees(b[i])
}

/// Two values of `Encoded` agree where all their fields do.
pub proof fn encoded_agrees(a: Encoded, b: Encoded)
    ensures
        a.agrees(b) <==> {
            &&& all_agree(a.numbers@, b.numbers@)
            &&& all_agree(a.rest@, b.rest@)
        },
{
    numbers_in_plain_terms();
    points_in_plain_terms();
}

/// Two values of `ExtendedDataRecord` agree where all their fields do.
pub proof fn extended_data_record_agrees(a: ExtendedDataRecord, b: ExtendedDataRecord)
    ensures
        a.agrees(b) <==> {
            &&& a.application_name@ == b.application_name@
            &&& all_agree(a.values@, b.values@)
        },
{
    numbers_in_plain_terms();
    points_in_plain_terms();
}

/// Two values of `RawRecord` agree where all their fields do.
pub proof fn raw_record_agrees(a: RawRecord, b: RawRecord)
    ensures
        a.agrees(b) <==> {
            &&& a.application == b.application
            &&& all_agree(a.bytes@, b.bytes@)
        },
{
    numbers_in_plain_terms();
    points_in_plain_terms();
}

/// Two values of `ExtendedData` agree where all their fields do.
pub proof fn extended_data_agrees(a: ExtendedData, b: ExtendedData)
    ensures
        a.agrees(b) <==> {
            &&& all_agree(a.records@, b.records@)
            &&& all_agree(a.raw_dwg_eed@, b.raw_dwg_eed@)
        },
{
    numbers_in_plain_terms();
    points_in_plain_terms();
}

/// Two values of `EntityCommon` agree where all their fields do.
pub proof fn entity_common_agrees(a: EntityCommon, b: EntityCommon)
    ensures
        a.agrees(b) <==> {
            &&& a.handle == b.handle
            &&& a.layer@ == b.layer@
            &&& a.owner_handle == b.owner_handle
            &&& a.on_paper == b.on_paper
            &&& a.extended_data.agrees(b.extended_data)
            &&& a.look.agrees(b.look)
        },
{
    numbers_in_plain_terms();
    points_in_plain_terms();
}

/// Two values of `AttributeRecord` agree where all their fields do.
pub proof fn attribute_record_agrees(a: AttributeRecord, b: AttributeRecord)
    ensures
        a.agrees(b) <==> {
            &&& a.common.agrees(b.common)
            &&& a.value.agrees(b.value)
            &&& a.record.agrees(b.record)
        },
{
    numbers_in_plain_terms();
    points_in_plain_terms();
}

/// Two values of `MLineSegment` agree where all their fields do.
pub proof fn m_line_segment_agrees(a: MLineSegment, b: MLineSegment)
    ensures
        a.agrees(b) <==> {
            &&& all_agree(a.parameters@, b.parameters@)
            &&& all_agree(a.area_fill_parameters@, b.area_fill_parameters@)
        },
{
    numbers_in_plain_terms();
    points_in_plain_terms();
}

/// Two values of `MLineVertex` agree where all their fields do.
pub proof fn m_line_vertex_agrees(a: MLineVertex, b: MLineVertex)
    ensures
        a.agrees(b) <==> {
            &&& still(a.position, b.position)
            &&& still(a.direction, b.direction)
            &&& still(a.miter, b.miter)
            &&& all_agree(a.segments@, b.segments@)
        },
{
    numbers_in_plain_terms();
    points_in_plain_terms();
}

/// Two values of `DimensionAligned` agree where all their fields do.
pub proof fn dimension_aligned_agrees(a: DimensionAligned, b: DimensionAligned)
    ensures
        a.agrees(b) <==> {
            &&& still(a.definition_point, b.definition_point)
            &&& still(a.first_point, b.first_point)
            &&& still(a.second_point, b.second_point)
            &&& left_alone(a.ext_line_rotation, b.ext_line_rotation)
        },
{
    numbers_in_plain_terms();
    points_in_plain_terms();
}

/// Two values of `DimensionLinear` agree where all their fields do.
pub proof fn dimension_linear_agrees(a: DimensionLinear, b: DimensionLinear)
    ensures
        a.agrees(b) <==> {
            &&& still(a.definition_point, b.definition_point)
            &&& still(a.first_point, b.first_point)
            &&& still(a.second_point, b.second_point)
            &&& left_alone(a.rotation, b.rotation)
            &&& left_alone(a.ext_line_rotation, b.ext_line_rotation)
        },
{
    numbers_in_plain_terms();
    points_in_plain_terms();
}

/// Two values of `DimensionRadius` agree where all their fields do.
pub proof fn dimension_radius_agrees(a: DimensionRadius, b: DimensionRadius)
    ensures
        a.agrees(b) <==> {
            &&& still(a.definition_point, b.definition_point)
            &&& still(a.angle_vertex, b.angle_vertex)
            &&& left_alone(a.leader_length, b.leader_length)
        },
{
    numbers_in_plain_terms();
    points_in_plain_terms();
}

/// Two values of `DimensionDiameter` agree where all their fields do.
pub proof fn dimension_diameter_agrees(a: DimensionDiameter, b: DimensionDiameter)
    ensures
        a.agrees(b) <==> {
            &&& still(a.definition_point, b.definition_point)
            &&& still(a.angle_vertex, b.angle_vertex)
            &&& left_alone(a.leader_length, b.leader_length)
        },
{
    numbers_in_plain_terms();
    points_in_plain_terms();
}

/// Two values of `DimensionAngular2Ln` agree where all their fields do.
pub proof fn dimension_angular_two_lines_agrees(a: DimensionAngular2Ln, b: DimensionAngular2Ln)
    ensures
        a.agrees(b) <==> {
            &&& still(a.definition_point, b.definition_point)
            &&& still(a.dimension_arc, b.dimension_arc)
            &&& still(a.first_point, b.first_point)
            &&& still(a.second_point, b.second_point)
            &&& still(a.angle_vertex, b.angle_vertex)
        },
{
    numbers_in_plain_terms();
    points_in_plain_terms();
}

/// Two values of `DimensionAngular3Pt` agree where all their fields do.
pub proof fn dimension_angular_three_points_agrees(a: DimensionAngular3Pt, b: DimensionAngular3Pt)
    ensures
        a.agrees(b) <==> {
            &&& still(a.definition_point, b.definition_point)
            &&& still(a.first_point, b.first_point)
            &&& still(a.second_point, b.second_point)
            &&& still(a.angle_vertex, b.angle_vertex)
        },
{
    numbers_in_plain_terms();
    points_in_plain_terms();
}

/// Two values of `DimensionOrdinate` agree where all their fields do.
pub proof fn dimension_ordinate_agrees(a: DimensionOrdinate, b: DimensionOrdinate)
    ensures
        a.agrees(b) <==> {
            &&& still(a.definition_point, b.definition_point)
            &&& still(a.feature_location, b.feature_location)
            &&& still(a.leader_endpoint, b.leader_endpoint)
        },
{
    numbers_in_plain_terms();
    points_in_plain_terms();
}

/// Two values of `DimensionArc` agree where all their fields do.
pub proof fn dimension_arc_agrees(a: DimensionArc, b: DimensionArc)
    ensures
        a.agrees(b) <==> {
            &&& still(a.definition_point, b.definition_point)
            &&& still(a.first_extension_point, b.first_extension_point)
            &&& still(a.second_extension_point, b.second_extension_point)
            &&& still(a.center_point, b.center_point)
            &&& still(a.first_leader_point, b.first_leader_point)
            &&& still(a.second_leader_point, b.second_leader_point)
            &&& left_alone(a.arc_start_parameter, b.arc_start_parameter)
            &&& left_alone(a.arc_end_parameter, b.arc_end_parameter)
        },
{
    numbers_in_plain_terms();
    points_in_plain_terms();
}

/// Two values of `DimensionLargeRadial` agree where all their fields do.
pub proof fn dimension_large_radial_agrees(a: DimensionLargeRadial, b: DimensionLargeRadial)
    ensures
        a.agrees(b) <==> {
            &&& still(a.definition_point, b.definition_point)
            &&& still(a.chord_point, b.chord_point)
            &&& still(a.override_center, b.override_center)
            &&& still(a.jog_point, b.jog_point)
            &&& left_alone(a.jog_angle, b.jog_angle)
        },
{
    numbers_in_plain_terms();
    points_in_plain_terms();
}

/// Two values of `Dimension` agree where all their fields do. What the
/// geometry engine derives from them is not compared.
pub proof fn dimension_agrees(a: Dimension, b: Dimension)
    ensures
        a.agrees(b) <==> {
            &&& still(a.normal, b.normal)
            &&& still(a.text_middle_point, b.text_middle_point)
            &&& left_alone(a.text_rotation, b.text_rotation)
            &&& left_alone(a.horizontal_direction, b.horizontal_direction)
            &&& a.style_name@ == b.style_name@
            &&& a.geometry.agrees(b.geometry)
        },
{
    numbers_in_plain_terms();
    points_in_plain_terms();
}

/// Two values of `LeaderLine` agree where all their fields do.
pub proof fn leader_line_agrees(a: LeaderLine, b: LeaderLine)
    ensures
        a.agrees(b) <==> {
            &&& all_agree(a.points@, b.points@)
        },
{
    numbers_in_plain_terms();
    points_in_plain_terms();
}

/// Two values of `LeaderRoot` agree where all their fields do.
pub proof fn leader_root_agrees(a: LeaderRoot, b: LeaderRoot)
    ensures
        a.agrees(b) <==> {
            &&& still(a.connection_point, b.connection_point)
            &&& still(a.direction, b.direction)
            &&& left_alone(a.landing_distance, b.landing_distance)
            &&& all_agree(a.lines@, b.lines@)
        },
{
    numbers_in_plain_terms();
    points_in_plain_terms();
}

/// Two values of `MultiLeaderContext` agree where all their fields do.
pub proof fn multi_leader_context_agrees(a: MultiLeaderContext, b: MultiLeaderContext)
    ensures
        a.agrees(b) <==> {
            &&& left_alone(a.scale_factor, b.scale_factor)
            &&& left_alone(a.text_height, b.text_height)
            &&& left_alone(a.text_width, b.text_width)
            &&& left_alone(a.text_rotation, b.text_rotation)
            &&& left_alone(a.landing_gap, b.landing_gap)
            &&& left_alone(a.arrowhead_size, b.arrowhead_size)
            &&& still(a.content_base_point, b.content_base_point)
            &&& still(a.text_location, b.text_location)
            &&& still(a.block_content_location, b.block_content_location)
            &&& still(a.base_point, b.base_point)
            &&& all_agree(a.transform_matrix@, b.transform_matrix@)
            &&& all_agree(a.leader_roots@, b.leader_roots@)
            &&& a.has_text_contents == b.has_text_contents
            &&& a.has_block_contents == b.has_block_contents
            &&& a.text_style_handle == b.text_style_handle
            &&& a.block_content_handle == b.block_content_handle
        },
{
    numbers_in_plain_terms();
    points_in_plain_terms();
}

/// Two values of `MultiLeader` agree where all their fields do.
pub proof fn multi_leader_agrees(a: MultiLeader, b: MultiLeader)
    ensures
        a.agrees(b) <==> {
            &&& left_alone(a.dogleg_length, b.dogleg_length)
            &&& left_alone(a.arrowhead_size, b.arrowhead_size)
            &&& left_alone(a.text_height, b.text_height)
            &&& left_alone(a.scale_factor, b.scale_factor)
            &&& left_alone(a.block_rotation, b.block_rotation)
            &&& still(a.block_scale, b.block_scale)
            &&& a.content_type == b.content_type
            &&& a.style_handle == b.style_handle
            &&& a.text_style_handle == b.text_style_handle
            &&& a.line_type_handle == b.line_type_handle
            &&& a.arrowhead_handle == b.arrowhead_handle
            &&& a.block_content_handle == b.block_content_handle
            &&& a.context.agrees(b.context)
        },
{
    numbers_in_plain_terms();
    points_in_plain_terms();
}

/// Two values of `CellContent` agree where all their fields do.
pub proof fn cell_content_agrees(a: CellContent, b: CellContent)
    ensures
        a.agrees(b) <==> {
            &&& left_alone(a.rotation, b.rotation)
            &&& left_alone(a.scale, b.scale)
            &&& left_alone(a.text_height, b.text_height)
            &&& left_alone(a.numeric_value, b.numeric_value)
            &&& a.text_style_handle == b.text_style_handle
            &&& a.block_handle == b.block_handle
        },
{
    numbers_in_plain_terms();
    points_in_plain_terms();
}

/// Two values of `TableCell` agree where all their fields do.
pub proof fn table_cell_agrees(a: TableCell, b: TableCell)
    ensures
        a.agrees(b) <==> {
            &&& left_alone(a.rotation, b.rotation)
            &&& left_alone(a.geometry_scale, b.geometry_scale)
            &&& left_alone(a.block_scale, b.block_scale)
            &&& all_agree(a.contents@, b.contents@)
        },
{
    numbers_in_plain_terms();
    points_in_plain_terms();
}

/// Two values of `TableRow` agree where all their fields do.
pub proof fn table_row_agrees(a: TableRow, b: TableRow)
    ensures
        a.agrees(b) <==> {
            &&& left_alone(a.height, b.height)
            &&& all_agree(a.cells@, b.cells@)
        },
{
    numbers_in_plain_terms();
    points_in_plain_terms();
}

/// Two values of `TableColumn` agree where all their fields do.
pub proof fn table_column_agrees(a: TableColumn, b: TableColumn)
    ensures
        a.agrees(b) <==> {
            &&& left_alone(a.width, b.width)
        },
{
    numbers_in_plain_terms();
    points_in_plain_terms();
}

/// Two values of `CellRange` agree where all their fields do.
pub proof fn cell_range_agrees(a: CellRange, b: CellRange)
    ensures
        a.agrees(b) <==> {
            &&& a.top_row == b.top_row
            &&& a.left_col == b.left_col
            &&& a.bottom_row == b.bottom_row
            &&& a.right_col == b.right_col
        },
{
    numbers_in_plain_terms();
    points_in_plain_terms();
}

/// Two values of `Table` agree where all their fields do.
pub proof fn table_agrees(a: Table, b: Table)
    ensures
        a.agrees(b) <==> {
            &&& still(a.insertion_point, b.insertion_point)
            &&& still(a.normal, b.normal)
            &&& still(a.horizontal_direction, b.horizontal_direction)
            &&& left_alone(a.break_spacing, b.break_spacing)
            &&& a.table_style_handle == b.table_style_handle
            &&& all_agree(a.rows@, b.rows@)
            &&& all_agree(a.columns@, b.columns@)
            &&& all_agree(a.merged_ranges@, b.merged_ranges@)
        },
{
    numbers_in_plain_terms();
    points_in_plain_terms();
}

/// Two values of `AttributeText` agree where all their fields do.
pub proof fn attribute_text_agrees(a: AttributeText, b: AttributeText)
    ensures
        a.agrees(b) <==> {
            &&& a.tag@ == b.tag@
            &&& still(a.insertion_point, b.insertion_point)
            &&& still(a.alignment_point, b.alignment_point)
            &&& still(a.normal, b.normal)
            &&& left_alone(a.height, b.height)
            &&& left_alone(a.rotation, b.rotation)
            &&& left_alone(a.width_factor, b.width_factor)
            &&& left_alone(a.oblique_angle, b.oblique_angle)
            &&& a.text_style@ == b.text_style@
            &&& a.field_length == b.field_length
            &&& a.line_count == b.line_count
            &&& a.embedded_mtext.agrees(b.embedded_mtext)
        },
{
    numbers_in_plain_terms();
    points_in_plain_terms();
}

/// Two values of `AttributeEntity` agree where all their fields do.
pub proof fn attribute_entity_agrees(a: AttributeEntity, b: AttributeEntity)
    ensures
        a.agrees(b) <==> {
            &&& a.text.agrees(b.text)
            &&& a.value@ == b.value@
            &&& a.attdef_handle == b.attdef_handle
        },
{
    numbers_in_plain_terms();
    points_in_plain_terms();
}

/// Two values of `HatchPatternLine` agree where all their fields do. What the
/// geometry engine derives from them is not compared.
pub proof fn hatch_pattern_line_agrees(a: HatchPatternLine, b: HatchPatternLine)
    ensures
        a.agrees(b) <==> {
            &&& left_alone(a.angle, b.angle)
            &&& spot_still(a.base_point, b.base_point)
            &&& spot_still(a.offset, b.offset)
            &&& all_agree(a.dash_lengths@, b.dash_lengths@)
        },
{
    numbers_in_plain_terms();
    points_in_plain_terms();
}

/// Two values of `HatchPattern` agree where all their fields do.
pub proof fn hatch_pattern_agrees(a: HatchPattern, b: HatchPattern)
    ensures
        a.agrees(b) <==> {
            &&& a.name@ == b.name@
            &&& a.description@ == b.description@
            &&& all_agree(a.lines@, b.lines@)
        },
{
    numbers_in_plain_terms();
    points_in_plain_terms();
}

/// Two values of `LineEdge` agree where all their fields do. What the
/// geometry engine derives from them is not compared.
pub proof fn line_edge_agrees(a: LineEdge, b: LineEdge)
    ensures
        a.agrees(b) <==> {
            &&& spot_still(a.start, b.start)
            &&& spot_still(a.end, b.end)
        },
{
    numbers_in_plain_terms();
    points_in_plain_terms();
}

/// Two values of `CircularArcEdge` agree where all their fields do. What the
/// geometry engine derives from them is not compared.
pub proof fn circular_arc_edge_agrees(a: CircularArcEdge, b: CircularArcEdge)
    ensures
        a.agrees(b) <==> {
            &&& spot_still(a.center, b.center)
            &&& left_alone(a.radius, b.radius)
            &&& left_alone(a.start_angle, b.start_angle)
            &&& left_alone(a.end_angle, b.end_angle)
            &&& a.counter_clockwise == b.counter_clockwise
        },
{
    numbers_in_plain_terms();
    points_in_plain_terms();
}

/// Two values of `EllipticArcEdge` agree where all their fields do. What the
/// geometry engine derives from them is not compared.
pub proof fn elliptic_arc_edge_agrees(a: EllipticArcEdge, b: EllipticArcEdge)
    ensures
        a.agrees(b) <==> {
            &&& spot_still(a.center, b.center)
            &&& spot_still(a.major_axis_endpoint, b.major_axis_endpoint)
            &&& left_alone(a.minor_axis_ratio, b.minor_axis_ratio)
            &&& left_alone(a.start_angle, b.start_angle)
            &&& left_alone(a.end_angle, b.end_angle)
            &&& a.counter_clockwise == b.counter_clockwise
        },
{
    numbers_in_plain_terms();
    points_in_plain_terms();
}

/// Two values of `PolylineEdge` agree where all their fields do.
pub proof fn polyline_edge_agrees(a: PolylineEdge, b: PolylineEdge)
    ensures
        a.agrees(b) <==> {
            &&& all_agree(a.vertices@, b.vertices@)
            &&& a.is_closed == b.is_closed
        },
{
    numbers_in_plain_terms();
    points_in_plain_terms();
}

/// Two values of `SplineEdge` agree where all their fields do.
pub proof fn spline_edge_agrees(a: SplineEdge, b: SplineEdge)
    ensures
        a.agrees(b) <==> {
            &&& a.degree == b.degree
            &&& a.rational == b.rational
            &&& a.periodic == b.periodic
            &&& all_agree(a.knots@, b.knots@)
            &&& all_agree(a.control_points@, b.control_points@)
            &&& all_agree(a.fit_points@, b.fit_points@)
            &&& spot_still(a.start_tangent, b.start_tangent)
            &&& spot_still(a.end_tangent, b.end_tangent)
        },
{
    numbers_in_plain_terms();
    points_in_plain_terms();
}

/// Two values of `BoundaryEdge` agree where all their fields do. What the
/// geometry engine derives from them is not compared.
pub proof fn boundary_edge_agrees(a: BoundaryEdge, b: BoundaryEdge)
    ensures
        a.agrees(b) <==> {
            &&& a.shape.agrees(b.shape)
        },
{
    numbers_in_plain_terms();
    points_in_plain_terms();
}

/// Two values of `BoundaryPath` agree where all their fields do.
pub proof fn boundary_path_agrees(a: BoundaryPath, b: BoundaryPath)
    ensures
        a.agrees(b) <==> {
            &&& a.flags == b.flags
            &&& all_agree(a.edges@, b.edges@)
            &&& all_agree(a.boundary_handles@, b.boundary_handles@)
        },
{
    numbers_in_plain_terms();
    points_in_plain_terms();
}

/// Two values of `SectionSymbolPoint` agree where all their fields do.
pub proof fn section_symbol_point_agrees(a: SectionSymbolPoint, b: SectionSymbolPoint)
    ensures
        a.agrees(b) <==> {
            &&& still(a.point, b.point)
            &&& left_alone(a.bulge, b.bulge)
            &&& a.label@ == b.label@
            &&& still(a.label_offset, b.label_offset)
            &&& a.raw_flag_280 == b.raw_flag_280
        },
{
    numbers_in_plain_terms();
    points_in_plain_terms();
}

/// Bytes, handles and text agree where they are the same, numbers and points where
/// an edit left them alone, and what may be absent where both are or both agree.
pub proof fn plain_values_agree(
    bytes: (u8, u8),
    handles: (Handle, Handle),
    texts: (String, String),
    numbers: (Scalar, Scalar),
    spots: (Vector2, Vector2),
    points: (Vector3, Vector3),
    options: (Option<Handle>, Option<Handle>),
)
    ensures
        bytes.0.agrees(bytes.1) <==> bytes.0 == bytes.1,
        handles.0.agrees(handles.1) <==> handles.0.value == handles.1.value,
        texts.0.agrees(texts.1) <==> texts.0@ == texts.1@,
        numbers.0.agrees(numbers.1) <==> left_alone(numbers.0, numbers.1),
        spots.0.agrees(spots.1) <==> spot_still(spots.0, spots.1),
        points.0.agrees(points.1) <==> still(points.0, points.1),
        options.0.agrees(options.1) <==> options.0 == options.1,
{
    numbers_in_plain_terms();
    points_in_plain_terms();
}

/// A dimension that measures another way does not agree, and one that measures the
/// same way agrees where its points do.
pub proof fn measures_agree(a: DimensionGeometry, b: DimensionGeometry)
    ensures
        a.agrees(b) <==> (match a {
            DimensionGeometry::Aligned(x) => b is Aligned && x.agrees(b->Aligned_0),
            DimensionGeometry::Linear(x) => b is Linear && x.agrees(b->Linear_0),
            DimensionGeometry::Radius(x) => b is Radius && x.agrees(b->Radius_0),
            DimensionGeometry::Diameter(x) => b is Diameter && x.agrees(b->Diameter_0),
            DimensionGeometry::Angular2Ln(x) => b is Angular2Ln && x.agrees(b->Angular2Ln_0),
            DimensionGeometry::Angular3Pt(x) => b is Angular3Pt && x.agrees(b->Angular3Pt_0),
            DimensionGeometry::Ordinate(x) => b is Ordinate && x.agrees(b->Ordinate_0),
            DimensionGeometry::Arc(x) => b is Arc && x.agrees(b->Arc_0),
            DimensionGeometry::LargeRadial(x) => b is LargeRadial && x.agrees(b->LargeRadial_0),
        }),
{
}

/// A piece of a boundary of another shape does not agree.
pub proof fn edges_agree(a: EdgeShape, b: EdgeShape)
    ensures
        a.agrees(b) <==> (match a {
            EdgeShape::Line(x) => b is Line && x.agrees(b->Line_0),
            EdgeShape::CircularArc(x) => b is CircularArc && x.agrees(b->CircularArc_0),
            EdgeShape::EllipticArc(x) => b is EllipticArc && x.agrees(b->EllipticArc_0),
            EdgeShape::Polyline(x) => b is Polyline && x.agrees(b->Polyline_0),
            EdgeShape::Spline(x) => b is Spline && x.agrees(b->Spline_0),
        }),
{
}

/// A value of extended data agrees with one of the same type that says the same.
pub proof fn xdata_values_agree(a: XDataValue, b: XDataValue)
    ensures
        a.agrees(b) <==> (match a {
            XDataValue::String(x) => b is String && x@ == b->String_0@,
            XDataValue::ControlString(x) => b is ControlString && x@ == b->ControlString_0@,
            XDataValue::LayerName(x) => b is LayerName && x@ == b->LayerName_0@,
            XDataValue::BinaryData(x) => b is BinaryData && all_agree(x@, b->BinaryData_0@),
            XDataValue::Handle(x) => b is Handle && x == b->Handle_0,
            XDataValue::Point3D(x) => b is Point3D && still(x, b->Point3D_0),
            XDataValue::Position3D(x) => b is Position3D && still(x, b->Position3D_0),
            XDataValue::Displacement3D(x) => b is Displacement3D && still(x, b->Displacement3D_0),
            XDataValue::Direction3D(x) => b is Direction3D && still(x, b->Direction3D_0),
            XDataValue::Real(x) => b is Real && left_alone(x, b->Real_0),
            XDataValue::Distance(x) => b is Distance && left_alone(x, b->Distance_0),
            XDataValue::ScaleFactor(x) => b is ScaleFactor && left_alone(x, b->ScaleFactor_0),
            XDataValue::Integer16(x) => b is Integer16 && x == b->Integer16_0,
            XDataValue::Integer32(x) => b is Integer32 && x == b->Integer32_0,
        }),
{
    numbers_in_plain_terms();
    points_in_plain_terms();
}

} // verus!
