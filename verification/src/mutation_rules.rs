//! The rules for edits of entities.
//!
//! An edit is held to account for what it touched. A number counts as touched
//! where its bits changed, text where it reads differently, and a list or a
//! whole record where it no longer agrees with what was there.

use crate::agree::{lists_agree, Agree};
use crate::creation_rules::{is_single_word, is_slanted, single_word, slanted};
use crate::dimension_rules::{dimension_fault, validate_dimension};
use crate::entities::{
    ArcSegment, AttributeEntity, AttributeText, Circle, EntityCommon, EntityData, EntityType,
    Face3D, Hatch, Insert, Kind, Line, Point, Ray, Shape, Solid, Tolerance, XLine,
};
use crate::geometry::{
    finite_fault, finite_vector, insert_scale, is_non_negative, non_negative, normal_fault,
    positive_size, provided, scale_fault, size_fault, solid_normal, unit_direction, unit_fault,
};
use crate::hatch_rules::{
    check_seed_points, hatch_paths_fault, hatch_pattern_fault, seed_points_fault,
    validate_hatch_paths, validate_hatch_pattern,
};
use crate::leader_rules::{
    leader_fault, mline_fault, multileader_fault, validate_leader, validate_mline,
    validate_multileader,
};
use crate::table_rules::{table_fault, validate_table};
use crate::text::{blank, check, fault, first, is_blank, join, unless, Fault};
use vstd::prelude::*;
use vstd::string::*;

verus! {

pub open spec fn edited_point_fault(old: Point, new: Point) -> Fault {
    provided(!old.location.identical(new.location), finite_fault("Point.location"@, new.location))
}

fn check_edited_point(old: &Point, new: &Point) -> (result: Result<(), String>)
    ensures
        fault(result) == edited_point_fault(*old, *new),
{
    if !old.location.is_identical(new.location) {
        finite_vector("Point.location", &new.location)?;
    }
    Ok(())
}

pub open spec fn edited_line_fault(old: Line, new: Line) -> Fault {
    first(
        provided(!old.start.identical(new.start), finite_fault("Line.start"@, new.start)),
        provided(!old.end.identical(new.end), finite_fault("Line.end"@, new.end)),
    )
}

fn check_edited_line(old: &Line, new: &Line) -> (result: Result<(), String>)
    ensures
        fault(result) == edited_line_fault(*old, *new),
{
    if !old.start.is_identical(new.start) {
        finite_vector("Line.start", &new.start)?;
    }
    if !old.end.is_identical(new.end) {
        finite_vector("Line.end", &new.end)?;
    }
    Ok(())
}

pub open spec fn edited_circle_fault(old: Circle, new: Circle) -> Fault {
    first(
        provided(!old.center.identical(new.center), finite_fault("Circle.center"@, new.center)),
        provided(old.radius != new.radius, size_fault("Circle.radius"@, new.radius)),
    )
}

fn check_edited_circle(old: &Circle, new: &Circle) -> (result: Result<(), String>)
    ensures
        fault(result) == edited_circle_fault(*old, *new),
{
    if !old.center.is_identical(new.center) {
        finite_vector("Circle.center", &new.center)?;
    }
    if old.radius != new.radius {
        positive_size("Circle.radius", new.radius)?;
    }
    Ok(())
}

pub open spec fn edited_arc_fault(old: ArcSegment, new: ArcSegment) -> Fault {
    first(
        provided(!old.center.identical(new.center), finite_fault("Arc.center"@, new.center)),
        provided(old.radius != new.radius, size_fault("Arc.radius"@, new.radius)),
    )
}

fn check_edited_arc(old: &ArcSegment, new: &ArcSegment) -> (result: Result<(), String>)
    ensures
        fault(result) == edited_arc_fault(*old, *new),
{
    if !old.center.is_identical(new.center) {
        finite_vector("Arc.center", &new.center)?;
    }
    if old.radius != new.radius {
        positive_size("Arc.radius", new.radius)?;
    }
    Ok(())
}

pub open spec fn edited_ray_fault(old: Ray, new: Ray) -> Fault {
    first(
        provided(
            !old.base_point.identical(new.base_point),
            finite_fault("Ray.base_point"@, new.base_point),
        ),
        provided(
            !old.direction.identical(new.direction),
            unit_fault("Ray.direction"@, new.direction),
        ),
    )
}

fn check_edited_ray(old: &Ray, new: &Ray) -> (result: Result<(), String>)
    ensures
        fault(result) == edited_ray_fault(*old, *new),
{
    if !old.base_point.is_identical(new.base_point) {
        finite_vector("Ray.base_point", &new.base_point)?;
    }
    if !old.direction.is_identical(new.direction) {
        unit_direction("Ray.direction", &new.direction)?;
    }
    Ok(())
}

pub open spec fn edited_xline_fault(old: XLine, new: XLine) -> Fault {
    first(
        provided(
            !old.base_point.identical(new.base_point),
            finite_fault("XLine.base_point"@, new.base_point),
        ),
        provided(
            !old.direction.identical(new.direction),
            unit_fault("XLine.direction"@, new.direction),
        ),
    )
}

fn check_edited_xline(old: &XLine, new: &XLine) -> (result: Result<(), String>)
    ensures
        fault(result) == edited_xline_fault(*old, *new),
{
    if !old.base_point.is_identical(new.base_point) {
        finite_vector("XLine.base_point", &new.base_point)?;
    }
    if !old.direction.is_identical(new.direction) {
        unit_direction("XLine.direction", &new.direction)?;
    }
    Ok(())
}

pub open spec fn edited_solid_fault(old: Solid, new: Solid) -> Fault {
    first(
        provided(
            !old.first_corner.identical(new.first_corner),
            finite_fault("Solid.first_corner"@, new.first_corner),
        ),
        first(
            provided(
                !old.second_corner.identical(new.second_corner),
                finite_fault("Solid.second_corner"@, new.second_corner),
            ),
            first(
                provided(
                    !old.third_corner.identical(new.third_corner),
                    finite_fault("Solid.third_corner"@, new.third_corner),
                ),
                first(
                    provided(
                        !old.fourth_corner.identical(new.fourth_corner),
                        finite_fault("Solid.fourth_corner"@, new.fourth_corner),
                    ),
                    first(
                        provided(
                            !old.normal.identical(new.normal),
                            normal_fault("Solid.normal"@, new.normal),
                        ),
                        provided(
                            old.thickness != new.thickness,
                            unless(new.thickness.finite(), "Solid.thickness must be finite"@),
                        ),
                    ),
                ),
            ),
        ),
    )
}

fn check_edited_solid(old: &Solid, new: &Solid) -> (result: Result<(), String>)
    ensures
        fault(result) == edited_solid_fault(*old, *new),
{
    if !old.first_corner.is_identical(new.first_corner) {
        finite_vector("Solid.first_corner", &new.first_corner)?;
    }
    if !old.second_corner.is_identical(new.second_corner) {
        finite_vector("Solid.second_corner", &new.second_corner)?;
    }
    if !old.third_corner.is_identical(new.third_corner) {
        finite_vector("Solid.third_corner", &new.third_corner)?;
    }
    if !old.fourth_corner.is_identical(new.fourth_corner) {
        finite_vector("Solid.fourth_corner", &new.fourth_corner)?;
    }
    if !old.normal.is_identical(new.normal) {
        solid_normal("Solid.normal", &new.normal)?;
    }
    if old.thickness != new.thickness {
        check(new.thickness.is_finite(), "Solid.thickness must be finite")?;
    }
    Ok(())
}

pub open spec fn edited_face_fault(old: Face3D, new: Face3D) -> Fault {
    first(
        provided(
            !old.first_corner.identical(new.first_corner),
            finite_fault("Face3D.first_corner"@, new.first_corner),
        ),
        first(
            provided(
                !old.second_corner.identical(new.second_corner),
                finite_fault("Face3D.second_corner"@, new.second_corner),
            ),
            first(
                provided(
                    !old.third_corner.identical(new.third_corner),
                    finite_fault("Face3D.third_corner"@, new.third_corner),
                ),
                first(
                    provided(
                        !old.fourth_corner.identical(new.fourth_corner),
                        finite_fault("Face3D.fourth_corner"@, new.fourth_corner),
                    ),
                    provided(
                        old.invisible_edges != new.invisible_edges,
                        unless(
                            new.invisible_edges <= 0x0f,
                            "Face3D.invisible_edges has unknown bits"@,
                        ),
                    ),
                ),
            ),
        ),
    )
}

fn check_edited_face(old: &Face3D, new: &Face3D) -> (result: Result<(), String>)
    ensures
        fault(result) == edited_face_fault(*old, *new),
{
    if !old.first_corner.is_identical(new.first_corner) {
        finite_vector("Face3D.first_corner", &new.first_corner)?;
    }
    if !old.second_corner.is_identical(new.second_corner) {
        finite_vector("Face3D.second_corner", &new.second_corner)?;
    }
    if !old.third_corner.is_identical(new.third_corner) {
        finite_vector("Face3D.third_corner", &new.third_corner)?;
    }
    if !old.fourth_corner.is_identical(new.fourth_corner) {
        finite_vector("Face3D.fourth_corner", &new.fourth_corner)?;
    }
    if old.invisible_edges != new.invisible_edges {
        check(new.invisible_edges <= 0x0f, "Face3D.invisible_edges has unknown bits")?;
    }
    Ok(())
}

pub open spec fn edited_insert_fault(old: Insert, new: Insert) -> Fault {
    first(
        unless(
            old.block_name@ == new.block_name@ && lists_agree(old.attributes@, new.attributes@)
                && old.view_rep_handle == new.view_rep_handle
                && old.seqend_handle == new.seqend_handle,
            "Insert block identity and attached records cannot change in a geometry transaction"@,
        ),
        first(
            provided(
                !old.insert_point.identical(new.insert_point),
                finite_fault("Insert.insert_point"@, new.insert_point),
            ),
            first(
                provided(
                    !old.normal.identical(new.normal),
                    normal_fault("Insert.normal"@, new.normal),
                ),
                first(
                    provided(
                        old.x_scale != new.x_scale,
                        scale_fault("Insert.x_scale"@, new.x_scale),
                    ),
                    first(
                        provided(
                            old.y_scale != new.y_scale,
                            scale_fault("Insert.y_scale"@, new.y_scale),
                        ),
                        first(
                            provided(
                                old.z_scale != new.z_scale,
                                scale_fault("Insert.z_scale"@, new.z_scale),
                            ),
                            first(
                                provided(
                                    old.rotation != new.rotation,
                                    unless(
                                        new.rotation.finite(),
                                        "Insert.rotation must be finite"@,
                                    ),
                                ),
                                first(
                                    provided(
                                        old.column_spacing != new.column_spacing,
                                        unless(
                                            new.column_spacing.finite(),
                                            "Insert.column_spacing must be finite"@,
                                        ),
                                    ),
                                    first(
                                        provided(
                                            old.row_spacing != new.row_spacing,
                                            unless(
                                                new.row_spacing.finite(),
                                                "Insert.row_spacing must be finite"@,
                                            ),
                                        ),
                                        unless(
                                            (
                                                old.column_count == new.column_count
                                                    || new.column_count != 0
                                            )
                                                && (
                                                    old.row_count == new.row_count
                                                        || new.row_count != 0
                                                ),
                                            "Insert array counts must be greater than zero"@,
                                        ),
                                    ),
                                ),
                            ),
                        ),
                    ),
                ),
            ),
        ),
    )
}

fn check_edited_insert(old: &Insert, new: &Insert) -> (result: Result<(), String>)
    ensures
        fault(result) == edited_insert_fault(*old, *new),
{
    check(
        old.block_name.agree(&new.block_name) && old.attributes.agree(&new.attributes)
            && old.view_rep_handle == new.view_rep_handle && old.seqend_handle == new.seqend_handle,
        "Insert block identity and attached records cannot change in a geometry transaction",
    )?;
    if !old.insert_point.is_identical(new.insert_point) {
        finite_vector("Insert.insert_point", &new.insert_point)?;
    }
    if !old.normal.is_identical(new.normal) {
        solid_normal("Insert.normal", &new.normal)?;
    }
    if old.x_scale != new.x_scale {
        insert_scale("Insert.x_scale", new.x_scale)?;
    }
    if old.y_scale != new.y_scale {
        insert_scale("Insert.y_scale", new.y_scale)?;
    }
    if old.z_scale != new.z_scale {
        insert_scale("Insert.z_scale", new.z_scale)?;
    }
    if old.rotation != new.rotation {
        check(new.rotation.is_finite(), "Insert.rotation must be finite")?;
    }
    if old.column_spacing != new.column_spacing {
        check(new.column_spacing.is_finite(), "Insert.column_spacing must be finite")?;
    }
    if old.row_spacing != new.row_spacing {
        check(new.row_spacing.is_finite(), "Insert.row_spacing must be finite")?;
    }
    check(
        (old.column_count == new.column_count || new.column_count != 0)
            && (old.row_count == new.row_count || new.row_count != 0),
        "Insert array counts must be greater than zero",
    )
}

pub open spec fn edited_tolerance_fault(old: Tolerance, new: Tolerance) -> Fault {
    first(
        provided(
            !old.insertion_point.identical(new.insertion_point),
            finite_fault("Tolerance.insertion_point"@, new.insertion_point),
        ),
        first(
            provided(
                !old.direction.identical(new.direction),
                unit_fault("Tolerance.direction"@, new.direction),
            ),
            first(
                provided(
                    !old.normal.identical(new.normal),
                    normal_fault("Tolerance.normal"@, new.normal),
                ),
                first(
                    provided(
                        old.text@ != new.text@,
                        unless(!blank(new.text@), "Tolerance.text is empty"@),
                    ),
                    first(
                        provided(
                            old.dimension_style_name@ != new.dimension_style_name@,
                            unless(
                                !blank(new.dimension_style_name@),
                                "Tolerance.dimension_style_name is empty"@,
                            ),
                        ),
                        first(
                            provided(
                                old.text_height != new.text_height,
                                size_fault("Tolerance.text_height"@, new.text_height),
                            ),
                            first(
                                provided(
                                    old.dimension_gap != new.dimension_gap,
                                    unless(
                                        new.dimension_gap.finite(),
                                        "Tolerance.dimension_gap must be finite"@,
                                    ),
                                ),
                                unless(
                                    old.dimension_style_handle == new.dimension_style_handle
                                        || old.dimension_style_name@ != new.dimension_style_name@,
                                    "Tolerance.dimension_style_handle is read-only"@,
                                ),
                            ),
                        ),
                    ),
                ),
            ),
        ),
    )
}

fn check_edited_tolerance(old: &Tolerance, new: &Tolerance) -> (result: Result<(), String>)
    ensures
        fault(result) == edited_tolerance_fault(*old, *new),
{
    if !old.insertion_point.is_identical(new.insertion_point) {
        finite_vector("Tolerance.insertion_point", &new.insertion_point)?;
    }
    if !old.direction.is_identical(new.direction) {
        unit_direction("Tolerance.direction", &new.direction)?;
    }
    if !old.normal.is_identical(new.normal) {
        solid_normal("Tolerance.normal", &new.normal)?;
    }
    if !old.text.agree(&new.text) {
        check(!is_blank(&new.text), "Tolerance.text is empty")?;
    }
    if !old.dimension_style_name.agree(&new.dimension_style_name) {
        check(!is_blank(&new.dimension_style_name), "Tolerance.dimension_style_name is empty")?;
    }
    if old.text_height != new.text_height {
        positive_size("Tolerance.text_height", new.text_height)?;
    }
    if old.dimension_gap != new.dimension_gap {
        check(new.dimension_gap.is_finite(), "Tolerance.dimension_gap must be finite")?;
    }
    check(
        old.dimension_style_handle == new.dimension_style_handle
            || !old.dimension_style_name.agree(&new.dimension_style_name),
        "Tolerance.dimension_style_handle is read-only",
    )
}

pub open spec fn edited_shape_fault(old: Shape, new: Shape) -> Fault {
    first(
        provided(
            !old.insertion_point.identical(new.insertion_point),
            finite_fault("Shape.insertion_point"@, new.insertion_point),
        ),
        first(
            provided(!old.normal.identical(new.normal), normal_fault("Shape.normal"@, new.normal)),
            first(
                provided(old.size != new.size, size_fault("Shape.size"@, new.size)),
                first(
                    provided(
                        old.shape_name@ != new.shape_name@,
                        unless(!blank(new.shape_name@), "Shape.shape_name is empty"@),
                    ),
                    first(
                        provided(
                            old.shape_number != new.shape_number,
                            unless(
                                1 <= new.shape_number <= 32767,
                                "Shape.shape_number must be between 1 and 32767"@,
                            ),
                        ),
                        first(
                            provided(
                                old.rotation != new.rotation,
                                unless(new.rotation.finite(), "Shape.rotation must be finite"@),
                            ),
                            first(
                                provided(
                                    old.relative_x_scale != new.relative_x_scale,
                                    scale_fault("Shape.relative_x_scale"@, new.relative_x_scale),
                                ),
                                first(
                                    provided(
                                        old.oblique_angle != new.oblique_angle,
                                        unless(
                                            slanted(new.oblique_angle),
                                            "Shape.oblique_angle must be finite and between -PI/2 and PI/2"@,
                                        ),
                                    ),
                                    first(
                                        provided(
                                            old.thickness != new.thickness,
                                            unless(
                                                new.thickness.finite(),
                                                "Shape.thickness must be finite"@,
                                            ),
                                        ),
                                        first(
                                            provided(
                                                old.style_name@ != new.style_name@,
                                                unless(
                                                    !blank(new.style_name@),
                                                    "Shape.style_name is empty"@,
                                                ),
                                            ),
                                            unless(
                                                old.style_handle == new.style_handle
                                                    || (
                                                        old.style_name@ != new.style_name@
                                                            && new.style_handle is Some
                                                    ),
                                                "Shape.style_handle is read-only"@,
                                            ),
                                        ),
                                    ),
                                ),
                            ),
                        ),
                    ),
                ),
            ),
        ),
    )
}

fn check_edited_shape(old: &Shape, new: &Shape) -> (result: Result<(), String>)
    ensures
        fault(result) == edited_shape_fault(*old, *new),
{
    if !old.insertion_point.is_identical(new.insertion_point) {
        finite_vector("Shape.insertion_point", &new.insertion_point)?;
    }
    if !old.normal.is_identical(new.normal) {
        solid_normal("Shape.normal", &new.normal)?;
    }
    if old.size != new.size {
        positive_size("Shape.size", new.size)?;
    }
    if !old.shape_name.agree(&new.shape_name) {
        check(!is_blank(&new.shape_name), "Shape.shape_name is empty")?;
    }
    if old.shape_number != new.shape_number {
        check(
            1 <= new.shape_number && new.shape_number <= 32767,
            "Shape.shape_number must be between 1 and 32767",
        )?;
    }
    if old.rotation != new.rotation {
        check(new.rotation.is_finite(), "Shape.rotation must be finite")?;
    }
    if old.relative_x_scale != new.relative_x_scale {
        insert_scale("Shape.relative_x_scale", new.relative_x_scale)?;
    }
    if old.oblique_angle != new.oblique_angle {
        check(
            is_slanted(new.oblique_angle),
            "Shape.oblique_angle must be finite and between -PI/2 and PI/2",
        )?;
    }
    if old.thickness != new.thickness {
        check(new.thickness.is_finite(), "Shape.thickness must be finite")?;
    }
    if !old.style_name.agree(&new.style_name) {
        check(!is_blank(&new.style_name), "Shape.style_name is empty")?;
    }
    check(
        old.style_handle == new.style_handle
            || (!old.style_name.agree(&new.style_name) && new.style_handle.is_some()),
        "Shape.style_handle is read-only",
    )
}

/// What an edit of an attribute or an attribute definition may do to the fields
/// that both have.
pub open spec fn edited_text_fault(prefix: Seq<char>, old: AttributeText, new: AttributeText) -> Fault {
    first(edited_place_fault(prefix, old, new), edited_form_fault(prefix, old, new))
}

/// What is wrong with where an edited attribute text stands and how it is tagged.
pub open spec fn edited_place_fault(
    prefix: Seq<char>,
    old: AttributeText,
    new: AttributeText,
) -> Fault {
    first(
        provided(
            !old.insertion_point.identical(new.insertion_point),
            finite_fault(prefix + ".insertion_point"@, new.insertion_point),
        ),
        first(
            provided(
                !old.alignment_point.identical(new.alignment_point),
                finite_fault(prefix + ".alignment_point"@, new.alignment_point),
            ),
            first(
                provided(
                    !old.normal.identical(new.normal),
                    normal_fault(prefix + ".normal"@, new.normal),
                ),
                provided(
                    old.tag@ != new.tag@,
                    unless(
                        single_word(new.tag@),
                        prefix + ".tag must be nonempty and contain no whitespace"@,
                    ),
                ),
            ),
        ),
    )
}

/// What is wrong with the form of an edited attribute text.
pub open spec fn edited_form_fault(
    prefix: Seq<char>,
    old: AttributeText,
    new: AttributeText,
) -> Fault {
    first(
        provided(old.height != new.height, size_fault(prefix + ".height"@, new.height)),
        first(
            provided(
                old.rotation != new.rotation,
                unless(new.rotation.finite(), prefix + ".rotation must be finite"@),
            ),
            first(
                provided(
                    old.oblique_angle != new.oblique_angle,
                    unless(
                        new.oblique_angle.finite(),
                        prefix + ".oblique_angle must be finite"@,
                    ),
                ),
                first(
                    provided(
                        old.width_factor != new.width_factor,
                        scale_fault(prefix + ".width_factor"@, new.width_factor),
                    ),
                    first(
                        provided(
                            old.oblique_angle != new.oblique_angle,
                            unless(
                                slanted(new.oblique_angle),
                                prefix + ".oblique_angle must be between -PI/2 and PI/2"@,
                            ),
                        ),
                        edited_content_fault(prefix, old, new),
                    ),
                ),
            ),
        ),
    )
}

/// What is wrong with the style and the lines of an edited attribute text.
pub open spec fn edited_content_fault(
    prefix: Seq<char>,
    old: AttributeText,
    new: AttributeText,
) -> Fault {
    first(
        provided(
            old.text_style@ != new.text_style@,
            unless(!blank(new.text_style@), prefix + ".text_style is empty"@),
        ),
        first(
            provided(
                old.field_length != new.field_length,
                unless(new.field_length >= 0, prefix + ".field_length must be nonnegative"@),
            ),
            first(
                provided(
                    old.line_count != new.line_count,
                    unless(
                        new.line_count >= 1,
                        prefix + ".line_count must be greater than zero"@,
                    ),
                ),
                unless(
                    old.embedded_mtext.agrees(new.embedded_mtext),
                    prefix + ".embedded_mtext is unmapped and read-only"@,
                ),
            ),
        ),
    )
}

fn check_edited_place(prefix: &str, old: &AttributeText, new: &AttributeText) -> (result: Result<
    (),
    String,
>)
    ensures
        fault(result) == edited_place_fault(prefix@, *old, *new),
{
    if !old.insertion_point.is_identical(new.insertion_point) {
        finite_vector(&join(prefix, ".insertion_point"), &new.insertion_point)?;
    }
    if !old.alignment_point.is_identical(new.alignment_point) {
        finite_vector(&join(prefix, ".alignment_point"), &new.alignment_point)?;
    }
    if !old.normal.is_identical(new.normal) {
        solid_normal(&join(prefix, ".normal"), &new.normal)?;
    }
    if !old.tag.agree(&new.tag) {
        check(
            is_single_word(&new.tag),
            &join(prefix, ".tag must be nonempty and contain no whitespace"),
        )?;
    }
    Ok(())
}

fn check_edited_form(prefix: &str, old: &AttributeText, new: &AttributeText) -> (result: Result<
    (),
    String,
>)
    ensures
        fault(result) == edited_form_fault(prefix@, *old, *new),
{
    if old.height != new.height {
        positive_size(&join(prefix, ".height"), new.height)?;
    }
    if old.rotation != new.rotation {
        check(new.rotation.is_finite(), &join(prefix, ".rotation must be finite"))?;
    }
    if old.oblique_angle != new.oblique_angle {
        check(new.oblique_angle.is_finite(), &join(prefix, ".oblique_angle must be finite"))?;
    }
    if old.width_factor != new.width_factor {
        insert_scale(&join(prefix, ".width_factor"), new.width_factor)?;
    }
    if old.oblique_angle != new.oblique_angle {
        check(
            is_slanted(new.oblique_angle),
            &join(prefix, ".oblique_angle must be between -PI/2 and PI/2"),
        )?;
    }
    check_edited_content(prefix, old, new)
}

fn check_edited_content(prefix: &str, old: &AttributeText, new: &AttributeText) -> (result: Result<
    (),
    String,
>)
    ensures
        fault(result) == edited_content_fault(prefix@, *old, *new),
{
    if !old.text_style.agree(&new.text_style) {
        check(!is_blank(&new.text_style), &join(prefix, ".text_style is empty"))?;
    }
    if old.field_length != new.field_length {
        check(new.field_length >= 0, &join(prefix, ".field_length must be nonnegative"))?;
    }
    if old.line_count != new.line_count {
        check(new.line_count >= 1, &join(prefix, ".line_count must be greater than zero"))?;
    }
    check(
        old.embedded_mtext.agree(&new.embedded_mtext),
        &join(prefix, ".embedded_mtext is unmapped and read-only"),
    )
}

fn check_edited_text(prefix: &str, old: &AttributeText, new: &AttributeText) -> (result: Result<
    (),
    String,
>)
    ensures
        fault(result) == edited_text_fault(prefix@, *old, *new),
{
    check_edited_place(prefix, old, new)?;
    check_edited_form(prefix, old, new)
}

pub open spec fn edited_attribute_fault(old: AttributeEntity, new: AttributeEntity) -> Fault {
    first(
        edited_text_fault("AttributeEntity"@, old.text, new.text),
        unless(
            old.attdef_handle == new.attdef_handle
                || (old.text.tag@ != new.text.tag@ && !new.attdef_handle.null()),
            "AttributeEntity.attdef_handle is read-only"@,
        ),
    )
}

fn check_edited_attribute(old: &AttributeEntity, new: &AttributeEntity) -> (result: Result<(), String>)
    ensures
        fault(result) == edited_attribute_fault(*old, *new),
{
    check_edited_text("AttributeEntity", &old.text, &new.text)?;
    check(
        old.attdef_handle == new.attdef_handle
            || (!old.text.tag.agree(&new.text.tag) && !new.attdef_handle.is_null()),
        "AttributeEntity.attdef_handle is read-only",
    )
}

pub open spec fn edited_hatch_fault(old: Hatch, new: Hatch) -> Fault {
    first(
        provided(!old.normal.identical(new.normal), normal_fault("Hatch.normal"@, new.normal)),
        first(
            provided(
                old.elevation != new.elevation,
                unless(new.elevation.finite(), "Hatch.elevation must be finite"@),
            ),
            first(
                provided(
                    !old.pattern.agrees(new.pattern) || old.is_solid != new.is_solid
                        || old.pattern_scale != new.pattern_scale,
                    hatch_pattern_fault(new),
                ),
                first(
                    provided(
                        old.pattern_angle != new.pattern_angle,
                        unless(new.pattern_angle.finite(), "Hatch.pattern_angle must be finite"@),
                    ),
                    first(
                        provided(
                            old.pixel_size != new.pixel_size,
                            unless(
                                non_negative(new.pixel_size),
                                "Hatch.pixel_size must be finite and non-negative"@,
                            ),
                        ),
                        first(
                            provided(
                                !lists_agree(old.paths@, new.paths@),
                                hatch_paths_fault(new.paths@),
                            ),
                            first(
                                provided(
                                    !lists_agree(old.seed_points@, new.seed_points@),
                                    seed_points_fault(new.seed_points@),
                                ),
                                first(
                                    unless(
                                        old.gradient_color.agrees(new.gradient_color),
                                        "Hatch.gradient_color is unmapped and read-only"@,
                                    ),
                                    unless(
                                        old.is_mpolygon == new.is_mpolygon
                                            && old.mpolygon_hatch_color == new.mpolygon_hatch_color
                                            && old.mpolygon_x_direction.same(
                                                new.mpolygon_x_direction,
                                            )
                                            && old.mpolygon_boundary_handle_count == new.mpolygon_boundary_handle_count,
                                        "Hatch MPOLYGON fields are unmapped and read-only"@,
                                    ),
                                ),
                            ),
                        ),
                    ),
                ),
            ),
        ),
    )
}

fn check_edited_hatch(old: &Hatch, new: &Hatch) -> (result: Result<(), String>)
    ensures
        fault(result) == edited_hatch_fault(*old, *new),
{
    if !old.normal.is_identical(new.normal) {
        solid_normal("Hatch.normal", &new.normal)?;
    }
    if old.elevation != new.elevation {
        check(new.elevation.is_finite(), "Hatch.elevation must be finite")?;
    }
    if !old.pattern.agree(&new.pattern) || old.is_solid != new.is_solid || old.pattern_scale
        != new.pattern_scale {
        validate_hatch_pattern(new)?;
    }
    if old.pattern_angle != new.pattern_angle {
        check(new.pattern_angle.is_finite(), "Hatch.pattern_angle must be finite")?;
    }
    if old.pixel_size != new.pixel_size {
        check(is_non_negative(new.pixel_size), "Hatch.pixel_size must be finite and non-negative")?;
    }
    if !old.paths.agree(&new.paths) {
        validate_hatch_paths(&new.paths)?;
    }
    if !old.seed_points.agree(&new.seed_points) {
        check_seed_points(&new.seed_points)?;
    }
    check(
        old.gradient_color.agree(&new.gradient_color),
        "Hatch.gradient_color is unmapped and read-only",
    )?;
    check(
        old.is_mpolygon == new.is_mpolygon && old.mpolygon_hatch_color == new.mpolygon_hatch_color
            && old.mpolygon_x_direction.unchanged(new.mpolygon_x_direction)
            && old.mpolygon_boundary_handle_count == new.mpolygon_boundary_handle_count,
        "Hatch MPOLYGON fields are unmapped and read-only",
    )
}

/// A kind that a user sees and can move to another layer. The others are
/// structural markers and records that the host carries unread.
pub open spec fn canvas(kind: Kind) -> bool {
    !(kind is Block || kind is BlockEnd || kind is Seqend || kind is Extended || kind is Unknown)
}

fn is_canvas(kind: Kind) -> (result: bool)
    ensures
        result == canvas(kind),
{
    match kind {
        Kind::Block | Kind::BlockEnd | Kind::Seqend | Kind::Extended | Kind::Unknown => false,
        _ => true,
    }
}

/// What moving an entity to another layer must hold.
pub open spec fn layer_fault(before: EntityType, after: EntityType) -> Fault {
    provided(
        before.common.layer@ != after.common.layer@,
        first(
            unless(!blank(after.common.layer@), "layer name is empty"@),
            unless(
                canvas(after.data.kind()),
                "entity kind does not support canvas layer edits"@,
            ),
        ),
    )
}

/// What an edit of the fields of a kind must hold.
pub open spec fn edited_fault(before: EntityType, after: EntityType) -> Fault {
    match (before.data, after.data) {
        (EntityData::Point(old), EntityData::Point(new)) => edited_point_fault(old, new),
        (EntityData::Line(old), EntityData::Line(new)) => edited_line_fault(old, new),
        (EntityData::Circle(old), EntityData::Circle(new)) => edited_circle_fault(old, new),
        (EntityData::Arc(old), EntityData::Arc(new)) => edited_arc_fault(old, new),
        (EntityData::Ray(old), EntityData::Ray(new)) => edited_ray_fault(old, new),
        (EntityData::XLine(old), EntityData::XLine(new)) => edited_xline_fault(old, new),
        (EntityData::Solid(old), EntityData::Solid(new)) => edited_solid_fault(old, new),
        (EntityData::Face3D(old), EntityData::Face3D(new)) => edited_face_fault(old, new),
        (EntityData::Insert(old), EntityData::Insert(new)) => edited_insert_fault(*old, *new),
        (EntityData::Tolerance(old), EntityData::Tolerance(new)) => edited_tolerance_fault(
            *old,
            *new,
        ),
        (EntityData::Shape(old), EntityData::Shape(new)) => edited_shape_fault(*old, *new),
        (EntityData::Dimension(old), EntityData::Dimension(new)) => provided(
            !(old.agrees(new) && before.record.agrees(after.record)),
            dimension_fault(*new),
        ),
        (EntityData::MultiLeader(old), EntityData::MultiLeader(new)) => provided(
            !(old.agrees(new) && before.record.agrees(after.record)),
            multileader_fault(*new),
        ),
        (EntityData::Table(old), EntityData::Table(new)) => provided(
            !(old.agrees(new) && before.record.agrees(after.record)),
            table_fault(*new),
        ),
        (EntityData::MLine(old), EntityData::MLine(new)) => mline_fault(Some(*old), *new),
        (EntityData::Leader(old), EntityData::Leader(new)) => leader_fault(Some(*old), *new),
        (
            EntityData::AttributeDefinition(old),
            EntityData::AttributeDefinition(new),
        ) => edited_text_fault("AttributeDefinition"@, old.text, new.text),
        (
            EntityData::AttributeEntity(old),
            EntityData::AttributeEntity(new),
        ) => edited_attribute_fault(*old, *new),
        (EntityData::Hatch(old), EntityData::Hatch(new)) => edited_hatch_fault(*old, *new),
        _ => None,
    }
}

/// What an edit of an entity must hold.
pub open spec fn mutation_fault(before: EntityType, after: EntityType) -> Fault {
    first(layer_fault(before, after), edited_fault(before, after))
}

fn check_edited(before: &EntityType, after: &EntityType) -> (result: Result<(), String>)
    ensures
        fault(result) == edited_fault(*before, *after),
{
    match (&before.data, &after.data) {
        (EntityData::Point(old), EntityData::Point(new)) => check_edited_point(old, new),
        (EntityData::Line(old), EntityData::Line(new)) => check_edited_line(old, new),
        (EntityData::Circle(old), EntityData::Circle(new)) => check_edited_circle(old, new),
        (EntityData::Arc(old), EntityData::Arc(new)) => check_edited_arc(old, new),
        (EntityData::Ray(old), EntityData::Ray(new)) => check_edited_ray(old, new),
        (EntityData::XLine(old), EntityData::XLine(new)) => check_edited_xline(old, new),
        (EntityData::Solid(old), EntityData::Solid(new)) => check_edited_solid(old, new),
        (EntityData::Face3D(old), EntityData::Face3D(new)) => check_edited_face(old, new),
        (EntityData::Insert(old), EntityData::Insert(new)) => check_edited_insert(old, new),
        (EntityData::Tolerance(old), EntityData::Tolerance(new)) => check_edited_tolerance(
            old,
            new,
        ),
        (EntityData::Shape(old), EntityData::Shape(new)) => check_edited_shape(old, new),
        (EntityData::Dimension(old), EntityData::Dimension(new)) => if old.agree(new)
            && before.record.agree(&after.record) {
            Ok(())
        } else {
            validate_dimension(new)
        },
        (EntityData::MultiLeader(old), EntityData::MultiLeader(new)) => if old.agree(new)
            && before.record.agree(&after.record) {
            Ok(())
        } else {
            validate_multileader(new)
        },
        (EntityData::Table(old), EntityData::Table(new)) => if old.agree(new)
            && before.record.agree(&after.record) {
            Ok(())
        } else {
            validate_table(new)
        },
        (EntityData::MLine(old), EntityData::MLine(new)) => validate_mline(Some(old), new),
        (EntityData::Leader(old), EntityData::Leader(new)) => validate_leader(Some(old), new),
        (
            EntityData::AttributeDefinition(old),
            EntityData::AttributeDefinition(new),
        ) => check_edited_text("AttributeDefinition", &old.text, &new.text),
        (
            EntityData::AttributeEntity(old),
            EntityData::AttributeEntity(new),
        ) => check_edited_attribute(old, new),
        (EntityData::Hatch(old), EntityData::Hatch(new)) => check_edited_hatch(old, new),
        _ => Ok(()),
    }
}

/// Checks what an edit touched of an entity. Values that were there before the
/// edit are not held against it, so an old drawing stays editable.
pub fn validate_entity_mutation(before: &EntityType, after: &EntityType) -> (result: Result<
    (),
    String,
>)
    ensures
        fault(result) == mutation_fault(*before, *after),
{
    if !before.common.layer.agree(&after.common.layer) {
        check(!is_blank(&after.common.layer), "layer name is empty")?;
        check(
            is_canvas(after.data.kind_of()),
            "entity kind does not support canvas layer edits",
        )?;
    }
    check_edited(before, after)
}

/// Copies an entity onto another layer. All its other fields stay as they are.
pub fn patch_canvas_layer(entity: &EntityType, layer: &str) -> (result: Result<EntityType, String>)
    ensures
        fault(result) == first(
            unless(!blank(layer@), "layer name is empty"@),
            unless(
                canvas(entity.data.kind()),
                "entity kind does not support canvas layer edits"@,
            ),
        ),
        result matches Ok(changed) ==> {
            &&& changed.common.layer@ == layer@
            &&& changed == (EntityType {
                common: EntityCommon { layer: changed.common.layer, ..entity.common },
                ..*entity
            })
        },
{
    check(!is_blank(layer), "layer name is empty")?;
    check(
        is_canvas(entity.data.kind_of()),
        "entity kind does not support canvas layer edits",
    )?;
    let mut changed = entity.copy();
    changed.common.layer = layer.to_owned();
    Ok(changed)
}

/// Moving an entity to another layer is held to the rules for layers alone: no
/// value that the entity had before stands in its way.
pub proof fn layer_edit_is_free(before: EntityType, after: EntityType)
    requires
        after == (EntityType {
            common: EntityCommon { layer: after.common.layer, ..before.common },
            ..before
        }),
    ensures
        mutation_fault(before, after) == layer_fault(before, after),
        mutation_fault(before, after) is None <==> (before.common.layer@ == after.common.layer@ || (
        !blank(after.common.layer@) && canvas(before.data.kind()))),
{
    before.record.agrees_with_itself();
    match before.data {
        EntityData::Insert(value) => value.attributes.agrees_with_itself(),
        EntityData::Dimension(value) => value.agrees_with_itself(),
        EntityData::MultiLeader(value) => value.agrees_with_itself(),
        EntityData::Table(value) => value.agrees_with_itself(),
        EntityData::MLine(value) => value.vertices.agrees_with_itself(),
        EntityData::Leader(value) => value.vertices.agrees_with_itself(),
        EntityData::AttributeDefinition(value) => value.text.agrees_with_itself(),
        EntityData::AttributeEntity(value) => value.text.agrees_with_itself(),
        EntityData::Hatch(value) => {
            value.pattern.agrees_with_itself();
            value.paths.agrees_with_itself();
            value.seed_points.agrees_with_itself();
            value.gradient_color.agrees_with_itself();
        },
        _ => {},
    }
}

/// An edit that changes nothing is accepted, whatever the entity holds.
pub proof fn idle_edit_is_accepted(entity: EntityType)
    ensures
        mutation_fault(entity, entity) is None,
{
    layer_edit_is_free(entity, entity);
}

} // verus!
