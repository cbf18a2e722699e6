//! Which edits of entities are accepted, kind by kind, in plain terms: an edit is
//! held to account for what it touched, and for nothing else.

use crate::agree::Agree;
use crate::agreement_laws::all_agree;
use crate::creation_laws::{
    all_spots, chain_rules_pass_sound_ones, dimension_rules_pass_sound_ones,
    multileader_rules_pass_sound_ones, paths_rules_pass_sound_ones, pattern_rules_pass_sound_ones,
    seed_rules_pass_real_ones, sound_chain, sound_dimension, sound_multileader, sound_paths,
    sound_pattern, sound_table, sound_vertices, table_rules_pass_sound_ones,
    vertex_rules_pass_sound_ones,
};
use crate::entities::{
    AttributeText, EntityData, EntityType, Hatch, Insert, Leader, LeaderCreationType, MLine, Shape,
    Tolerance,
};
use crate::mutation_rules::{canvas, edited_fault, edited_text_fault, layer_fault, mutation_fault};
use crate::plain::{
    above_zero, bounded, leaning, moved, numbers_in_plain_terms, off_zero, one_word, plain_number,
    pointing, points_in_plain_terms, real_point, size, spot_still, still, text_in_plain_terms,
    unit_long, written, zero_or_above,
};
use crate::scalar::Scalar;
use crate::text::blank;
use vstd::prelude::*;
use vstd::string::*;

verus! {

/// The number was touched.
pub open spec fn changed(a: Scalar, b: Scalar) -> bool {
    a.bits != b.bits
}

/// The entity stays on its layer; or the new one has a name, and the entity is not
/// a marker of a block, the end of a sequence or a record that the host carries
/// unread.
pub open spec fn layer_allowed(before: EntityType, after: EntityType) -> bool {
    before.common.layer@ == after.common.layer@ || (written(after.common.layer@)
        && !(after.data is Block || after.data is BlockEnd || after.data is Seqend
        || after.data is Extended || after.data is Unknown))
}

/// An edit is accepted where its layer is allowed and the fields of its kind are.
/// Which message a layer that is not allowed brings, does not depend on the fields.
pub proof fn edit_needs_an_allowed_layer(before: EntityType, after: EntityType)
    ensures
        layer_fault(before, after) is None <==> layer_allowed(before, after),
        mutation_fault(before, after) is None <==> layer_allowed(before, after) && edited_fault(
            before,
            after,
        ) is None,
        before.common.layer@ != after.common.layer@ && !written(after.common.layer@)
            ==> mutation_fault(before, after) == Some("layer name is empty"@),
        before.common.layer@ != after.common.layer@ && written(after.common.layer@)
            && !layer_allowed(before, after) ==> mutation_fault(before, after) == Some(
            "entity kind does not support canvas layer edits"@,
        ),
{
    text_in_plain_terms();
}

/// An edit of a point is accepted where the location is real or was not touched.
pub proof fn point_edit_is_accepted(before: EntityType, after: EntityType)
    requires
        before.data is Point,
        after.data is Point,
    ensures
        mutation_fault(before, after) is None <==> {
            let old = before.data->Point_0;
            let new = after.data->Point_0;
            &&& layer_allowed(before, after)
            &&& moved(old.location, new.location) ==> real_point(new.location)
        },
{
    text_in_plain_terms();
    points_in_plain_terms();
}

/// An edit of a line is accepted where each end that it moved has three real
/// coordinates.
pub proof fn line_edit_is_accepted(before: EntityType, after: EntityType)
    requires
        before.data is Line,
        after.data is Line,
    ensures
        mutation_fault(before, after) is None <==> {
            let old = before.data->Line_0;
            let new = after.data->Line_0;
            &&& layer_allowed(before, after)
            &&& moved(old.start, new.start) ==> real_point(new.start)
            &&& moved(old.end, new.end) ==> real_point(new.end)
        },
        layer_allowed(before, after) && moved(
            before.data->Line_0.start,
            after.data->Line_0.start,
        ) && !real_point(after.data->Line_0.start) ==> mutation_fault(before, after) == Some(
            "Line.start"@ + " must contain finite coordinates"@,
        ),
{
    text_in_plain_terms();
    points_in_plain_terms();
}

/// An edit of a circle or an arc is accepted where a center that it moved is real
/// and a radius that it changed is above zero.
pub proof fn circle_edit_is_accepted(before: EntityType, after: EntityType)
    ensures
        before.data is Circle && after.data is Circle ==> (mutation_fault(before, after) is None
            <==> {
            let old = before.data->Circle_0;
            let new = after.data->Circle_0;
            &&& layer_allowed(before, after)
            &&& moved(old.center, new.center) ==> real_point(new.center)
            &&& changed(old.radius, new.radius) ==> above_zero(new.radius)
        }),
        before.data is Arc && after.data is Arc ==> (mutation_fault(before, after) is None <==> {
            let old = before.data->Arc_0;
            let new = after.data->Arc_0;
            &&& layer_allowed(before, after)
            &&& moved(old.center, new.center) ==> real_point(new.center)
            &&& changed(old.radius, new.radius) ==> above_zero(new.radius)
        }),
{
    text_in_plain_terms();
    points_in_plain_terms();
    numbers_in_plain_terms();
}

/// An edit of a ray or a construction line is accepted where a base point that it
/// moved is real and a direction that it turned has length one.
pub proof fn ray_edit_is_accepted(before: EntityType, after: EntityType)
    ensures
        before.data is Ray && after.data is Ray ==> (mutation_fault(before, after) is None <==> {
            let old = before.data->Ray_0;
            let new = after.data->Ray_0;
            &&& layer_allowed(before, after)
            &&& moved(old.base_point, new.base_point) ==> real_point(new.base_point)
            &&& moved(old.direction, new.direction) ==> unit_long(new.direction)
        }),
        before.data is XLine && after.data is XLine ==> (mutation_fault(before, after) is None
            <==> {
            let old = before.data->XLine_0;
            let new = after.data->XLine_0;
            &&& layer_allowed(before, after)
            &&& moved(old.base_point, new.base_point) ==> real_point(new.base_point)
            &&& moved(old.direction, new.direction) ==> unit_long(new.direction)
        }),
{
    text_in_plain_terms();
    points_in_plain_terms();
}

/// An edit of a planar solid is accepted where the corners that it moved are real, a
/// normal that it turned points somewhere and a thickness that it changed is real.
pub proof fn solid_edit_is_accepted(before: EntityType, after: EntityType)
    requires
        before.data is Solid,
        after.data is Solid,
    ensures
        mutation_fault(before, after) is None <==> {
            let old = before.data->Solid_0;
            let new = after.data->Solid_0;
            &&& layer_allowed(before, after)
            &&& moved(old.first_corner, new.first_corner) ==> real_point(new.first_corner)
            &&& moved(old.second_corner, new.second_corner) ==> real_point(new.second_corner)
            &&& moved(old.third_corner, new.third_corner) ==> real_point(new.third_corner)
            &&& moved(old.fourth_corner, new.fourth_corner) ==> real_point(new.fourth_corner)
            &&& moved(old.normal, new.normal) ==> pointing(new.normal)
            &&& changed(old.thickness, new.thickness) ==> bounded(new.thickness)
        },
{
    text_in_plain_terms();
    points_in_plain_terms();
    numbers_in_plain_terms();
}

/// An edit of a face is accepted where the corners that it moved are real, and the
/// edges that it hides anew are among its four.
pub proof fn face_edit_is_accepted(before: EntityType, after: EntityType)
    requires
        before.data is Face3D,
        after.data is Face3D,
    ensures
        mutation_fault(before, after) is None <==> {
            let old = before.data->Face3D_0;
            let new = after.data->Face3D_0;
            &&& layer_allowed(before, after)
            &&& moved(old.first_corner, new.first_corner) ==> real_point(new.first_corner)
            &&& moved(old.second_corner, new.second_corner) ==> real_point(new.second_corner)
            &&& moved(old.third_corner, new.third_corner) ==> real_point(new.third_corner)
            &&& moved(old.fourth_corner, new.fourth_corner) ==> real_point(new.fourth_corner)
            &&& old.invisible_edges != new.invisible_edges ==> new.invisible_edges < 16
        },
{
    text_in_plain_terms();
    points_in_plain_terms();
}

/// What an edit of a block reference may change: nothing of its block, its
/// attributes and its links, and its place, normal, scales, spacings and counts
/// where the new ones do.
pub open spec fn insert_edit_allowed(old: Insert, new: Insert) -> bool {
    &&& old.block_name@ == new.block_name@
    &&& all_agree(old.attributes@, new.attributes@)
    &&& old.view_rep_handle == new.view_rep_handle
    &&& old.seqend_handle == new.seqend_handle
    &&& moved(old.insert_point, new.insert_point) ==> real_point(new.insert_point)
    &&& moved(old.normal, new.normal) ==> pointing(new.normal)
    &&& changed(old.x_scale, new.x_scale) ==> off_zero(new.x_scale)
    &&& changed(old.y_scale, new.y_scale) ==> off_zero(new.y_scale)
    &&& changed(old.z_scale, new.z_scale) ==> off_zero(new.z_scale)
    &&& changed(old.rotation, new.rotation) ==> bounded(new.rotation)
    &&& changed(old.column_spacing, new.column_spacing) ==> bounded(new.column_spacing)
    &&& changed(old.row_spacing, new.row_spacing) ==> bounded(new.row_spacing)
    &&& old.column_count != new.column_count ==> new.column_count > 0
    &&& old.row_count != new.row_count ==> new.row_count > 0
}

/// An edit of a block reference is accepted where it leaves its identity alone and
/// the geometry that it touched is sound.
pub proof fn insert_edit_is_accepted(before: EntityType, after: EntityType)
    ensures
        before.data matches EntityData::Insert(old) ==> (after.data matches EntityData::Insert(new)
            ==> (mutation_fault(before, after) is None <==> layer_allowed(before, after)
            && insert_edit_allowed(*old, *new))),
{
    text_in_plain_terms();
    points_in_plain_terms();
    numbers_in_plain_terms();
}

/// What an edit of a tolerance frame may change.
pub open spec fn tolerance_edit_allowed(old: Tolerance, new: Tolerance) -> bool {
    &&& moved(old.insertion_point, new.insertion_point) ==> real_point(new.insertion_point)
    &&& moved(old.direction, new.direction) ==> unit_long(new.direction)
    &&& moved(old.normal, new.normal) ==> pointing(new.normal)
    &&& old.text@ != new.text@ ==> written(new.text@)
    &&& old.dimension_style_name@ != new.dimension_style_name@ ==> written(
        new.dimension_style_name@,
    )
    &&& changed(old.text_height, new.text_height) ==> above_zero(new.text_height)
    &&& changed(old.dimension_gap, new.dimension_gap) ==> bounded(new.dimension_gap)
    &&& old.dimension_style_handle != new.dimension_style_handle ==> old.dimension_style_name@
        != new.dimension_style_name@
}

/// An edit of a tolerance frame is accepted where what it touched is sound, and the
/// handle of the style changes only with the name.
pub proof fn tolerance_edit_is_accepted(before: EntityType, after: EntityType)
    ensures
        before.data matches EntityData::Tolerance(old) ==> (
        after.data matches EntityData::Tolerance(new) ==> (mutation_fault(before, after) is None
            <==> layer_allowed(before, after) && tolerance_edit_allowed(*old, *new))),
{
    text_in_plain_terms();
    points_in_plain_terms();
    numbers_in_plain_terms();
}

/// What an edit of a glyph may change.
pub open spec fn shape_edit_allowed(old: Shape, new: Shape) -> bool {
    &&& moved(old.insertion_point, new.insertion_point) ==> real_point(new.insertion_point)
    &&& moved(old.normal, new.normal) ==> pointing(new.normal)
    &&& changed(old.size, new.size) ==> above_zero(new.size)
    &&& old.shape_name@ != new.shape_name@ ==> written(new.shape_name@)
    &&& old.shape_number != new.shape_number ==> 0 < new.shape_number < 32768
    &&& changed(old.rotation, new.rotation) ==> bounded(new.rotation)
    &&& changed(old.relative_x_scale, new.relative_x_scale) ==> off_zero(new.relative_x_scale)
    &&& changed(old.oblique_angle, new.oblique_angle) ==> leaning(new.oblique_angle)
    &&& changed(old.thickness, new.thickness) ==> bounded(new.thickness)
    &&& old.style_name@ != new.style_name@ ==> written(new.style_name@)
    &&& old.style_handle != new.style_handle ==> old.style_name@ != new.style_name@
        && new.style_handle is Some
}

/// An edit of a glyph is accepted where what it touched is sound, and the handle of
/// the style changes only with the name and is not dropped.
pub proof fn shape_edit_is_accepted(before: EntityType, after: EntityType)
    ensures
        before.data matches EntityData::Shape(old) ==> (after.data matches EntityData::Shape(new)
            ==> (mutation_fault(before, after) is None <==> layer_allowed(before, after)
            && shape_edit_allowed(*old, *new))),
{
    text_in_plain_terms();
    points_in_plain_terms();
    numbers_in_plain_terms();
}

/// What an edit of the text of an attribute may change.
pub open spec fn attribute_edit_allowed(old: AttributeText, new: AttributeText) -> bool {
    &&& moved(old.insertion_point, new.insertion_point) ==> real_point(new.insertion_point)
    &&& moved(old.alignment_point, new.alignment_point) ==> real_point(new.alignment_point)
    &&& moved(old.normal, new.normal) ==> pointing(new.normal)
    &&& old.tag@ != new.tag@ ==> one_word(new.tag@)
    &&& changed(old.height, new.height) ==> above_zero(new.height)
    &&& changed(old.rotation, new.rotation) ==> bounded(new.rotation)
    &&& changed(old.width_factor, new.width_factor) ==> off_zero(new.width_factor)
    &&& changed(old.oblique_angle, new.oblique_angle) ==> leaning(new.oblique_angle)
    &&& old.text_style@ != new.text_style@ ==> written(new.text_style@)
    &&& old.field_length != new.field_length ==> 0 <= new.field_length
    &&& old.line_count != new.line_count ==> 0 < new.line_count
    &&& old.embedded_mtext.agrees(new.embedded_mtext)
}

/// The rules for the text of an attribute pass the edits that are allowed.
pub proof fn attribute_rules_pass_allowed_edits(
    prefix: Seq<char>,
    old: &AttributeText,
    new: &AttributeText,
)
    ensures
        edited_text_fault(prefix, *old, *new) is None <==> attribute_edit_allowed(*old, *new),
{
    text_in_plain_terms();
    points_in_plain_terms();
    numbers_in_plain_terms();
}

/// An edit of an attribute or an attribute definition is accepted where what it
/// touched of the text is sound. The definition of an attribute changes only with
/// its tag, and then there is one.
pub proof fn attribute_edit_is_accepted(before: EntityType, after: EntityType)
    ensures
        before.data matches EntityData::AttributeDefinition(old) ==> (
        after.data matches EntityData::AttributeDefinition(new) ==> (mutation_fault(
            before,
            after,
        ) is None <==> layer_allowed(before, after) && attribute_edit_allowed(old.text, new.text))),
        before.data matches EntityData::AttributeEntity(old) ==> (
        after.data matches EntityData::AttributeEntity(new) ==> (mutation_fault(
            before,
            after,
        ) is None <==> {
            &&& layer_allowed(before, after)
            &&& attribute_edit_allowed(old.text, new.text)
            &&& old.attdef_handle.value != new.attdef_handle.value ==> old.text.tag@
                != new.text.tag@ && new.attdef_handle.value != 0
        })),
{
    text_in_plain_terms();
    if before.data is AttributeDefinition && after.data is AttributeDefinition {
        attribute_rules_pass_allowed_edits(
            "AttributeDefinition"@,
            &before.data->AttributeDefinition_0.text,
            &after.data->AttributeDefinition_0.text,
        );
    }
    if before.data is AttributeEntity && after.data is AttributeEntity {
        let old = before.data->AttributeEntity_0;
        let new = after.data->AttributeEntity_0;
        attribute_rules_pass_allowed_edits("AttributeEntity"@, &old.text, &new.text);
        assert(old.attdef_handle.value == new.attdef_handle.value ==> old.attdef_handle
            == new.attdef_handle);
    }
}

/// An edit of a dimension, a multileader or a table that touched anything is
/// accepted where the entity is then sound as a whole; one that touched nothing is
/// accepted as it is.
pub proof fn whole_edit_is_accepted(before: EntityType, after: EntityType)
    ensures
        before.data matches EntityData::Dimension(old) ==> (
        after.data matches EntityData::Dimension(new) ==> (mutation_fault(before, after) is None
            <==> layer_allowed(before, after) && ((old.agrees(new) && before.record.agrees(
            after.record,
        )) || sound_dimension(*new)))),
        before.data matches EntityData::MultiLeader(old) ==> (
        after.data matches EntityData::MultiLeader(new) ==> (mutation_fault(before, after) is None
            <==> layer_allowed(before, after) && ((old.agrees(new) && before.record.agrees(
            after.record,
        )) || sound_multileader(*new)))),
        before.data matches EntityData::Table(old) ==> (after.data matches EntityData::Table(new)
            ==> (mutation_fault(before, after) is None <==> layer_allowed(before, after) && ((
        old.agrees(new) && before.record.agrees(after.record)) || sound_table(*new)))),
{
    text_in_plain_terms();
    if after.data is Dimension {
        dimension_rules_pass_sound_ones(&after.data->Dimension_0);
    }
    if after.data is MultiLeader {
        multileader_rules_pass_sound_ones(&after.data->MultiLeader_0);
    }
    if after.data is Table {
        table_rules_pass_sound_ones(&after.data->Table_0);
    }
}

/// What an edit of a leader may change.
pub open spec fn leader_edit_allowed(old: Leader, new: Leader) -> bool {
    &&& !all_agree(old.vertices@, new.vertices@) ==> sound_chain(new.vertices@)
    &&& moved(old.normal, new.normal) ==> pointing(new.normal)
    &&& moved(old.horizontal_direction, new.horizontal_direction) ==> pointing(
        new.horizontal_direction,
    )
    &&& moved(old.block_offset, new.block_offset) ==> real_point(new.block_offset)
    &&& moved(old.annotation_offset, new.annotation_offset) ==> real_point(new.annotation_offset)
    &&& changed(old.text_height, new.text_height) ==> above_zero(new.text_height)
    &&& changed(old.text_width, new.text_width) ==> zero_or_above(new.text_width)
    &&& old.dimension_style@ != new.dimension_style@ ==> written(new.dimension_style@)
    &&& old.creation_type != new.creation_type || old.annotation_handle.value
        != new.annotation_handle.value ==> (new.creation_type == LeaderCreationType::NoAnnotation
        ==> new.annotation_handle.value == 0)
}

/// An edit of a leader is accepted where what it touched is sound.
pub proof fn leader_edit_is_accepted(before: EntityType, after: EntityType)
    ensures
        before.data matches EntityData::Leader(old) ==> (after.data matches EntityData::Leader(new)
            ==> (mutation_fault(before, after) is None <==> layer_allowed(before, after)
            && leader_edit_allowed(*old, *new))),
{
    text_in_plain_terms();
    points_in_plain_terms();
    numbers_in_plain_terms();
    if before.data is Leader && after.data is Leader {
        let old = before.data->Leader_0;
        let new = after.data->Leader_0;
        chain_rules_pass_sound_ones(new.vertices@);
        assert(old.annotation_handle.value == new.annotation_handle.value
            ==> old.annotation_handle == new.annotation_handle);
    }
}

/// What an edit of a multiline may change.
pub open spec fn mline_edit_allowed(old: MLine, new: MLine) -> bool {
    let other_vertices = !all_agree(old.vertices@, new.vertices@);
    &&& old.flags != new.flags ==> new.flags < 16
    &&& changed(old.scale_factor, new.scale_factor) ==> bounded(new.scale_factor) && size(
        new.scale_factor,
    ) != 0
    &&& !still(old.normal, new.normal) ==> pointing(new.normal)
    &&& old.style_name@ != new.style_name@ ==> written(new.style_name@)
    &&& other_vertices ==> sound_vertices(new.vertices@)
    &&& old.flags != new.flags || other_vertices ==> (new.flags as int % 4 >= 2
        ==> new.vertices@.len() >= 3)
}

/// An edit of a multiline is accepted where what it touched is sound; a closed one
/// needs three vertices once its flags or its vertices were touched.
pub proof fn mline_edit_is_accepted(before: EntityType, after: EntityType)
    ensures
        before.data matches EntityData::MLine(old) ==> (after.data matches EntityData::MLine(new)
            ==> (mutation_fault(before, after) is None <==> layer_allowed(before, after)
            && mline_edit_allowed(*old, *new))),
{
    text_in_plain_terms();
    points_in_plain_terms();
    if before.data is MLine && after.data is MLine {
        let new = after.data->MLine_0;
        let flags = new.flags;
        vertex_rules_pass_sound_ones(new.vertices@);
        plain_number(new.scale_factor);
        crate::creation_laws::closed_flag(flags);
        assert(written(new.style_name@) == !blank(new.style_name@));
        assert(pointing(new.normal) == (new.normal.finite() && new.normal.length.positive()));
        assert(still(before.data->MLine_0.normal, new.normal) == before.data->MLine_0.normal.same(
            new.normal,
        ));
    }
}

/// What an edit of a hatch may change. The gradient and the fields of a filled
/// polygon stay.
pub open spec fn hatch_edit_allowed(old: Hatch, new: Hatch) -> bool {
    &&& moved(old.normal, new.normal) ==> pointing(new.normal)
    &&& changed(old.elevation, new.elevation) ==> bounded(new.elevation)
    &&& !old.pattern.agrees(new.pattern) || old.is_solid != new.is_solid || changed(
        old.pattern_scale,
        new.pattern_scale,
    ) ==> sound_pattern(new)
    &&& changed(old.pattern_angle, new.pattern_angle) ==> bounded(new.pattern_angle)
    &&& changed(old.pixel_size, new.pixel_size) ==> zero_or_above(new.pixel_size)
    &&& !all_agree(old.paths@, new.paths@) ==> sound_paths(new.paths@)
    &&& !all_agree(old.seed_points@, new.seed_points@) ==> all_spots(new.seed_points@)
    &&& old.gradient_color.agrees(new.gradient_color)
    &&& old.is_mpolygon == new.is_mpolygon
    &&& old.mpolygon_hatch_color == new.mpolygon_hatch_color
    &&& spot_still(old.mpolygon_x_direction, new.mpolygon_x_direction)
    &&& old.mpolygon_boundary_handle_count == new.mpolygon_boundary_handle_count
}

/// An edit of a hatch is accepted where what it touched is sound and what scripts do
/// not see stays.
pub proof fn hatch_edit_is_accepted(before: EntityType, after: EntityType)
    ensures
        before.data matches EntityData::Hatch(old) ==> (after.data matches EntityData::Hatch(new)
            ==> (mutation_fault(before, after) is None <==> layer_allowed(before, after)
            && hatch_edit_allowed(*old, *new))),
{
    text_in_plain_terms();
    points_in_plain_terms();
    numbers_in_plain_terms();
    if before.data is Hatch && after.data is Hatch {
        let new = after.data->Hatch_0;
        pattern_rules_pass_sound_ones(&new);
        seed_rules_pass_real_ones(new.seed_points@);
        paths_rules_pass_sound_ones(new.paths@);
    }
}

/// An edit of an entity of any other kind is accepted where its layer is allowed.
pub proof fn other_edit_is_accepted(before: EntityType, after: EntityType)
    requires
        !(before.data is Point || before.data is Line || before.data is Circle
            || before.data is Arc || before.data is Ray || before.data is XLine
            || before.data is Solid || before.data is Face3D || before.data is Insert
            || before.data is Tolerance || before.data is Shape || before.data is Dimension
            || before.data is MultiLeader || before.data is Table || before.data is MLine
            || before.data is Leader || before.data is AttributeDefinition
            || before.data is AttributeEntity || before.data is Hatch),
    ensures
        mutation_fault(before, after) is None <==> layer_allowed(before, after),
{
    text_in_plain_terms();
}

} // verus!
