//! The rules for new entities.

use crate::dimension_rules::{dimension_fault, validate_dimension};
use crate::entities::{
    AttributeText, EntityData, EntityType, Face3D, Hatch, Ray, Shape, Solid, Tolerance, XLine,
};
use crate::geometry::{
    finite_fault, finite_vector, insert_scale, is_non_negative, non_negative, normal_fault,
    positive_size, scale_fault, size_fault, solid_normal, unit_direction, unit_fault,
};
use crate::hatch_rules::{
    check_seed_points, hatch_paths_fault, hatch_pattern_fault, seed_points_fault,
    validate_hatch_paths, validate_hatch_pattern,
};
use crate::leader_rules::{
    leader_fault, mline_fault, multileader_fault, validate_leader, validate_mline,
    validate_multileader,
};
use crate::scalar::Scalar;
use crate::table_rules::{table_fault, validate_table};
use crate::text::{blank, check, fault, first, has_space, is_blank, join, space, unless, Fault};
use vstd::prelude::*;
use vstd::string::*;

verus! {

/// The bits of the number nearest a right angle in radians.
pub const RIGHT_ANGLE_BITS: u64 = 0x3ff9_21fb_5444_2d18;

/// A slant strictly between minus and plus a right angle.
pub open spec fn slanted(angle: Scalar) -> bool {
    angle.finite() && angle.absolute().below(Scalar { bits: RIGHT_ANGLE_BITS })
}

pub fn is_slanted(angle: Scalar) -> (result: bool)
    ensures
        result == slanted(angle),
{
    angle.is_finite() && angle.abs().lt(Scalar { bits: RIGHT_ANGLE_BITS })
}

/// Text without any white space, and not empty.
pub open spec fn single_word(text: Seq<char>) -> bool {
    !blank(text) && !exists|i: int| 0 <= i < text.len() && space(#[trigger] text[i])
}

pub fn is_single_word(text: &str) -> (result: bool)
    ensures
        result == single_word(text@),
{
    !is_blank(text) && !has_space(text)
}

pub open spec fn new_ray_fault(value: Ray) -> Fault {
    first(
        finite_fault("Ray.base_point"@, value.base_point),
        unit_fault("Ray.direction"@, value.direction),
    )
}

fn check_new_ray(value: &Ray) -> (result: Result<(), String>)
    ensures
        fault(result) == new_ray_fault(*value),
{
    finite_vector("Ray.base_point", &value.base_point)?;
    unit_direction("Ray.direction", &value.direction)
}

pub open spec fn new_xline_fault(value: XLine) -> Fault {
    first(
        finite_fault("XLine.base_point"@, value.base_point),
        unit_fault("XLine.direction"@, value.direction),
    )
}

fn check_new_xline(value: &XLine) -> (result: Result<(), String>)
    ensures
        fault(result) == new_xline_fault(*value),
{
    finite_vector("XLine.base_point", &value.base_point)?;
    unit_direction("XLine.direction", &value.direction)
}

pub open spec fn new_solid_fault(value: Solid) -> Fault {
    first(
        finite_fault("Solid.first_corner"@, value.first_corner),
        first(
            finite_fault("Solid.second_corner"@, value.second_corner),
            first(
                finite_fault("Solid.third_corner"@, value.third_corner),
                first(
                    finite_fault("Solid.fourth_corner"@, value.fourth_corner),
                    first(
                        normal_fault("Solid.normal"@, value.normal),
                        unless(value.thickness.finite(), "Solid.thickness must be finite"@),
                    ),
                ),
            ),
        ),
    )
}

fn check_new_solid(value: &Solid) -> (result: Result<(), String>)
    ensures
        fault(result) == new_solid_fault(*value),
{
    finite_vector("Solid.first_corner", &value.first_corner)?;
    finite_vector("Solid.second_corner", &value.second_corner)?;
    finite_vector("Solid.third_corner", &value.third_corner)?;
    finite_vector("Solid.fourth_corner", &value.fourth_corner)?;
    solid_normal("Solid.normal", &value.normal)?;
    check(value.thickness.is_finite(), "Solid.thickness must be finite")
}

pub open spec fn new_face_fault(value: Face3D) -> Fault {
    first(
        finite_fault("Face3D.first_corner"@, value.first_corner),
        first(
            finite_fault("Face3D.second_corner"@, value.second_corner),
            first(
                finite_fault("Face3D.third_corner"@, value.third_corner),
                first(
                    finite_fault("Face3D.fourth_corner"@, value.fourth_corner),
                    unless(
                        value.invisible_edges <= 0x0f,
                        "Face3D.invisible_edges has unknown bits"@,
                    ),
                ),
            ),
        ),
    )
}

fn check_new_face(value: &Face3D) -> (result: Result<(), String>)
    ensures
        fault(result) == new_face_fault(*value),
{
    finite_vector("Face3D.first_corner", &value.first_corner)?;
    finite_vector("Face3D.second_corner", &value.second_corner)?;
    finite_vector("Face3D.third_corner", &value.third_corner)?;
    finite_vector("Face3D.fourth_corner", &value.fourth_corner)?;
    check(value.invisible_edges <= 0x0f, "Face3D.invisible_edges has unknown bits")
}

pub open spec fn new_tolerance_fault(value: Tolerance) -> Fault {
    first(
        finite_fault("Tolerance.insertion_point"@, value.insertion_point),
        first(
            unit_fault("Tolerance.direction"@, value.direction),
            first(
                normal_fault("Tolerance.normal"@, value.normal),
                first(
                    unless(!blank(value.text@), "Tolerance.text is empty"@),
                    first(
                        unless(
                            !blank(value.dimension_style_name@),
                            "Tolerance.dimension_style_name is empty"@,
                        ),
                        first(
                            size_fault("Tolerance.text_height"@, value.text_height),
                            unless(
                                value.dimension_gap.finite(),
                                "Tolerance.dimension_gap must be finite"@,
                            ),
                        ),
                    ),
                ),
            ),
        ),
    )
}

fn check_new_tolerance(value: &Tolerance) -> (result: Result<(), String>)
    ensures
        fault(result) == new_tolerance_fault(*value),
{
    finite_vector("Tolerance.insertion_point", &value.insertion_point)?;
    unit_direction("Tolerance.direction", &value.direction)?;
    solid_normal("Tolerance.normal", &value.normal)?;
    check(!is_blank(&value.text), "Tolerance.text is empty")?;
    check(!is_blank(&value.dimension_style_name), "Tolerance.dimension_style_name is empty")?;
    positive_size("Tolerance.text_height", value.text_height)?;
    check(value.dimension_gap.is_finite(), "Tolerance.dimension_gap must be finite")
}

pub open spec fn new_shape_fault(value: Shape) -> Fault {
    first(
        finite_fault("Shape.insertion_point"@, value.insertion_point),
        first(
            normal_fault("Shape.normal"@, value.normal),
            first(
                size_fault("Shape.size"@, value.size),
                first(
                    unless(!blank(value.shape_name@), "Shape.shape_name is empty"@),
                    first(
                        unless(
                            1 <= value.shape_number <= 32767,
                            "Shape.shape_number must be between 1 and 32767"@,
                        ),
                        first(
                            unless(value.rotation.finite(), "Shape.rotation must be finite"@),
                            first(
                                scale_fault("Shape.relative_x_scale"@, value.relative_x_scale),
                                first(
                                    unless(
                                        slanted(value.oblique_angle),
                                        "Shape.oblique_angle must be finite and between -PI/2 and PI/2"@,
                                    ),
                                    first(
                                        unless(
                                            value.thickness.finite(),
                                            "Shape.thickness must be finite"@,
                                        ),
                                        unless(
                                            !blank(value.style_name@),
                                            "Shape.style_name is empty"@,
                                        ),
                                    ),
                                ),
                            ),
                        ),
                    ),
                ),
            ),
        ),
    )
}

fn check_new_shape(value: &Shape) -> (result: Result<(), String>)
    ensures
        fault(result) == new_shape_fault(*value),
{
    finite_vector("Shape.insertion_point", &value.insertion_point)?;
    solid_normal("Shape.normal", &value.normal)?;
    positive_size("Shape.size", value.size)?;
    check(!is_blank(&value.shape_name), "Shape.shape_name is empty")?;
    check(
        1 <= value.shape_number && value.shape_number <= 32767,
        "Shape.shape_number must be between 1 and 32767",
    )?;
    check(value.rotation.is_finite(), "Shape.rotation must be finite")?;
    insert_scale("Shape.relative_x_scale", value.relative_x_scale)?;
    check(
        is_slanted(value.oblique_angle),
        "Shape.oblique_angle must be finite and between -PI/2 and PI/2",
    )?;
    check(value.thickness.is_finite(), "Shape.thickness must be finite")?;
    check(!is_blank(&value.style_name), "Shape.style_name is empty")
}

/// What a new attribute or attribute definition must hold. The messages start
/// with the name of the kind.
pub open spec fn new_attribute_fault(prefix: Seq<char>, value: AttributeText) -> Fault {
    first(
        finite_fault(prefix + ".insertion_point"@, value.insertion_point),
        first(
            finite_fault(prefix + ".alignment_point"@, value.alignment_point),
            first(
                normal_fault(prefix + ".normal"@, value.normal),
                first(
                    unless(
                        single_word(value.tag@),
                        prefix + ".tag must be nonempty and contain no whitespace"@,
                    ),
                    first(
                        size_fault(prefix + ".height"@, value.height),
                        first(
                            unless(value.rotation.finite(), prefix + ".rotation must be finite"@),
                            first(
                                scale_fault(prefix + ".width_factor"@, value.width_factor),
                                first(
                                    unless(
                                        slanted(value.oblique_angle),
                                        prefix + ".oblique_angle must be finite and between -PI/2 and PI/2"@,
                                    ),
                                    first(
                                        unless(
                                            !blank(value.text_style@),
                                            prefix + ".text_style is empty"@,
                                        ),
                                        first(
                                            unless(
                                                value.field_length >= 0,
                                                prefix + ".field_length must be nonnegative"@,
                                            ),
                                            unless(
                                                value.line_count >= 1,
                                                prefix + ".line_count must be greater than zero"@,
                                            ),
                                        ),
                                    ),
                                ),
                            ),
                        ),
                    ),
                ),
            ),
        ),
    )
}

fn check_new_attribute(prefix: &str, value: &AttributeText) -> (result: Result<(), String>)
    ensures
        fault(result) == new_attribute_fault(prefix@, *value),
{
    finite_vector(&join(prefix, ".insertion_point"), &value.insertion_point)?;
    finite_vector(&join(prefix, ".alignment_point"), &value.alignment_point)?;
    solid_normal(&join(prefix, ".normal"), &value.normal)?;
    check(
        is_single_word(&value.tag),
        &join(prefix, ".tag must be nonempty and contain no whitespace"),
    )?;
    positive_size(&join(prefix, ".height"), value.height)?;
    check(value.rotation.is_finite(), &join(prefix, ".rotation must be finite"))?;
    insert_scale(&join(prefix, ".width_factor"), value.width_factor)?;
    check(
        is_slanted(value.oblique_angle),
        &join(prefix, ".oblique_angle must be finite and between -PI/2 and PI/2"),
    )?;
    check(!is_blank(&value.text_style), &join(prefix, ".text_style is empty"))?;
    check(value.field_length >= 0, &join(prefix, ".field_length must be nonnegative"))?;
    check(value.line_count >= 1, &join(prefix, ".line_count must be greater than zero"))
}

pub open spec fn new_hatch_fault(value: Hatch) -> Fault {
    first(
        normal_fault("Hatch.normal"@, value.normal),
        first(
            unless(value.elevation.finite(), "Hatch.elevation must be finite"@),
            first(
                hatch_pattern_fault(value),
                first(
                    unless(value.pattern_angle.finite(), "Hatch.pattern_angle must be finite"@),
                    first(
                        unless(
                            non_negative(value.pixel_size),
                            "Hatch.pixel_size must be finite and non-negative"@,
                        ),
                        first(
                            seed_points_fault(value.seed_points@),
                            hatch_paths_fault(value.paths@),
                        ),
                    ),
                ),
            ),
        ),
    )
}

fn check_new_hatch(value: &Hatch) -> (result: Result<(), String>)
    ensures
        fault(result) == new_hatch_fault(*value),
{
    solid_normal("Hatch.normal", &value.normal)?;
    check(value.elevation.is_finite(), "Hatch.elevation must be finite")?;
    validate_hatch_pattern(value)?;
    check(value.pattern_angle.is_finite(), "Hatch.pattern_angle must be finite")?;
    check(is_non_negative(value.pixel_size), "Hatch.pixel_size must be finite and non-negative")?;
    check_seed_points(&value.seed_points)?;
    validate_hatch_paths(&value.paths)
}

/// What a new entity must hold, whatever drawing it enters.
pub open spec fn new_entity_fault(entity: EntityType) -> Fault {
    first(
        unless(!blank(entity.common.layer@), "layer name is empty"@),
        match entity.data {
            EntityData::Ray(value) => new_ray_fault(value),
            EntityData::XLine(value) => new_xline_fault(value),
            EntityData::Solid(value) => new_solid_fault(value),
            EntityData::Face3D(value) => new_face_fault(value),
            EntityData::Tolerance(value) => new_tolerance_fault(*value),
            EntityData::Shape(value) => new_shape_fault(*value),
            EntityData::Leader(value) => leader_fault(None, *value),
            EntityData::MLine(value) => mline_fault(None, *value),
            EntityData::Dimension(value) => dimension_fault(*value),
            EntityData::MultiLeader(value) => multileader_fault(*value),
            EntityData::Table(value) => table_fault(*value),
            EntityData::AttributeDefinition(value) => new_attribute_fault(
                "AttributeDefinition"@,
                value.text,
            ),
            EntityData::AttributeEntity(value) => new_attribute_fault(
                "AttributeEntity"@,
                value.text,
            ),
            EntityData::Hatch(value) => new_hatch_fault(*value),
            _ => None,
        },
    )
}

/// Checks the fields of a new entity before it enters a drawing. Kinds without
/// rules of their own pass with any name of a layer.
pub fn validate_new_canvas_entity(entity: &EntityType) -> (result: Result<(), String>)
    ensures
        fault(result) == new_entity_fault(*entity),
{
    check(!is_blank(&entity.common.layer), "layer name is empty")?;
    match &entity.data {
        EntityData::Ray(value) => check_new_ray(value),
        EntityData::XLine(value) => check_new_xline(value),
        EntityData::Solid(value) => check_new_solid(value),
        EntityData::Face3D(value) => check_new_face(value),
        EntityData::Tolerance(value) => check_new_tolerance(value),
        EntityData::Shape(value) => check_new_shape(value),
        EntityData::Leader(value) => validate_leader(None, value),
        EntityData::MLine(value) => validate_mline(None, value),
        EntityData::Dimension(value) => validate_dimension(value),
        EntityData::MultiLeader(value) => validate_multileader(value),
        EntityData::Table(value) => validate_table(value),
        EntityData::AttributeDefinition(value) => check_new_attribute(
            "AttributeDefinition",
            &value.text,
        ),
        EntityData::AttributeEntity(value) => check_new_attribute("AttributeEntity", &value.text),
        EntityData::Hatch(value) => check_new_hatch(value),
        _ => Ok(()),
    }
}

} // verus!
