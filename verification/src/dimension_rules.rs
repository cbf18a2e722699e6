//! The rules for dimensions.

use crate::entities::{
    Dimension, DimensionAligned, DimensionAngular2Ln, DimensionAngular3Pt, DimensionArc,
    DimensionDiameter, DimensionGeometry, DimensionLargeRadial, DimensionLinear, DimensionOrdinate,
    DimensionRadius,
};
use crate::geometry::{finite_fault, finite_vector, normal_fault, solid_normal};
use crate::text::{blank, check, fault, first, is_blank, unless, Fault};
use vstd::prelude::*;
use vstd::string::*;

verus! {

pub open spec fn aligned_fault(d: DimensionAligned) -> Fault {
    first(
        finite_fault("Dimension.definition_point"@, d.definition_point),
        first(
            finite_fault("Dimension.first_point"@, d.first_point),
            first(
                finite_fault("Dimension.second_point"@, d.second_point),
                first(
                    unless(
                        d.ext_line_rotation.finite(),
                        "Dimension.ext_line_rotation must be finite"@,
                    ),
                    unless(
                        !d.first_point.coincident(d.second_point),
                        "Dimension.first_point and second_point must not coincide"@,
                    ),
                ),
            ),
        ),
    )
}

fn check_aligned(d: &DimensionAligned) -> (result: Result<(), String>)
    ensures
        fault(result) == aligned_fault(*d),
{
    finite_vector("Dimension.definition_point", &d.definition_point)?;
    finite_vector("Dimension.first_point", &d.first_point)?;
    finite_vector("Dimension.second_point", &d.second_point)?;
    check(d.ext_line_rotation.is_finite(), "Dimension.ext_line_rotation must be finite")?;
    check(
        !d.first_point.coincides(d.second_point),
        "Dimension.first_point and second_point must not coincide",
    )
}

pub open spec fn linear_fault(d: DimensionLinear) -> Fault {
    first(
        finite_fault("Dimension.definition_point"@, d.definition_point),
        first(
            finite_fault("Dimension.first_point"@, d.first_point),
            first(
                finite_fault("Dimension.second_point"@, d.second_point),
                first(
                    unless(d.rotation.finite(), "Dimension.rotation must be finite"@),
                    first(
                        unless(
                            d.ext_line_rotation.finite(),
                            "Dimension.ext_line_rotation must be finite"@,
                        ),
                        unless(
                            !d.first_point.coincident(d.second_point),
                            "Dimension.first_point and second_point must not coincide"@,
                        ),
                    ),
                ),
            ),
        ),
    )
}

fn check_linear(d: &DimensionLinear) -> (result: Result<(), String>)
    ensures
        fault(result) == linear_fault(*d),
{
    finite_vector("Dimension.definition_point", &d.definition_point)?;
    finite_vector("Dimension.first_point", &d.first_point)?;
    finite_vector("Dimension.second_point", &d.second_point)?;
    check(d.rotation.is_finite(), "Dimension.rotation must be finite")?;
    check(d.ext_line_rotation.is_finite(), "Dimension.ext_line_rotation must be finite")?;
    check(
        !d.first_point.coincides(d.second_point),
        "Dimension.first_point and second_point must not coincide",
    )
}

pub open spec fn radius_fault(d: DimensionRadius) -> Fault {
    first(
        finite_fault("Dimension.definition_point"@, d.definition_point),
        first(
            finite_fault("Dimension.angle_vertex"@, d.angle_vertex),
            first(
                unless(d.leader_length.finite(), "Dimension.leader_length must be finite"@),
                unless(
                    !d.definition_point.coincident(d.angle_vertex),
                    "Dimension.definition_point and angle_vertex must not coincide"@,
                ),
            ),
        ),
    )
}

fn check_radius(d: &DimensionRadius) -> (result: Result<(), String>)
    ensures
        fault(result) == radius_fault(*d),
{
    finite_vector("Dimension.definition_point", &d.definition_point)?;
    finite_vector("Dimension.angle_vertex", &d.angle_vertex)?;
    check(d.leader_length.is_finite(), "Dimension.leader_length must be finite")?;
    check(
        !d.definition_point.coincides(d.angle_vertex),
        "Dimension.definition_point and angle_vertex must not coincide",
    )
}

pub open spec fn diameter_fault(d: DimensionDiameter) -> Fault {
    first(
        finite_fault("Dimension.definition_point"@, d.definition_point),
        first(
            finite_fault("Dimension.angle_vertex"@, d.angle_vertex),
            first(
                unless(d.leader_length.finite(), "Dimension.leader_length must be finite"@),
                unless(
                    !d.definition_point.coincident(d.angle_vertex),
                    "Dimension.definition_point and angle_vertex must not coincide"@,
                ),
            ),
        ),
    )
}

fn check_diameter(d: &DimensionDiameter) -> (result: Result<(), String>)
    ensures
        fault(result) == diameter_fault(*d),
{
    finite_vector("Dimension.definition_point", &d.definition_point)?;
    finite_vector("Dimension.angle_vertex", &d.angle_vertex)?;
    check(d.leader_length.is_finite(), "Dimension.leader_length must be finite")?;
    check(
        !d.definition_point.coincides(d.angle_vertex),
        "Dimension.definition_point and angle_vertex must not coincide",
    )
}

pub open spec fn two_line_fault(d: DimensionAngular2Ln) -> Fault {
    first(
        finite_fault("Dimension.definition_point"@, d.definition_point),
        first(
            finite_fault("Dimension.dimension_arc"@, d.dimension_arc),
            first(
                finite_fault("Dimension.first_point"@, d.first_point),
                first(
                    finite_fault("Dimension.second_point"@, d.second_point),
                    finite_fault("Dimension.angle_vertex"@, d.angle_vertex),
                ),
            ),
        ),
    )
}

fn check_two_line(d: &DimensionAngular2Ln) -> (result: Result<(), String>)
    ensures
        fault(result) == two_line_fault(*d),
{
    finite_vector("Dimension.definition_point", &d.definition_point)?;
    finite_vector("Dimension.dimension_arc", &d.dimension_arc)?;
    finite_vector("Dimension.first_point", &d.first_point)?;
    finite_vector("Dimension.second_point", &d.second_point)?;
    finite_vector("Dimension.angle_vertex", &d.angle_vertex)
}

pub open spec fn three_point_fault(d: DimensionAngular3Pt) -> Fault {
    first(
        finite_fault("Dimension.definition_point"@, d.definition_point),
        first(
            finite_fault("Dimension.first_point"@, d.first_point),
            first(
                finite_fault("Dimension.second_point"@, d.second_point),
                first(
                    finite_fault("Dimension.angle_vertex"@, d.angle_vertex),
                    first(
                        unless(
                            !d.first_point.coincident(d.angle_vertex),
                            "Dimension.first_point and angle_vertex must not coincide"@,
                        ),
                        unless(
                            !d.second_point.coincident(d.angle_vertex),
                            "Dimension.second_point and angle_vertex must not coincide"@,
                        ),
                    ),
                ),
            ),
        ),
    )
}

fn check_three_point(d: &DimensionAngular3Pt) -> (result: Result<(), String>)
    ensures
        fault(result) == three_point_fault(*d),
{
    finite_vector("Dimension.definition_point", &d.definition_point)?;
    finite_vector("Dimension.first_point", &d.first_point)?;
    finite_vector("Dimension.second_point", &d.second_point)?;
    finite_vector("Dimension.angle_vertex", &d.angle_vertex)?;
    check(
        !d.first_point.coincides(d.angle_vertex),
        "Dimension.first_point and angle_vertex must not coincide",
    )?;
    check(
        !d.second_point.coincides(d.angle_vertex),
        "Dimension.second_point and angle_vertex must not coincide",
    )
}

pub open spec fn ordinate_fault(d: DimensionOrdinate) -> Fault {
    first(
        finite_fault("Dimension.definition_point"@, d.definition_point),
        first(
            finite_fault("Dimension.feature_location"@, d.feature_location),
            finite_fault("Dimension.leader_endpoint"@, d.leader_endpoint),
        ),
    )
}

fn check_ordinate(d: &DimensionOrdinate) -> (result: Result<(), String>)
    ensures
        fault(result) == ordinate_fault(*d),
{
    finite_vector("Dimension.definition_point", &d.definition_point)?;
    finite_vector("Dimension.feature_location", &d.feature_location)?;
    finite_vector("Dimension.leader_endpoint", &d.leader_endpoint)
}

pub open spec fn arc_fault(d: DimensionArc) -> Fault {
    first(
        finite_fault("Dimension.definition_point"@, d.definition_point),
        first(
            finite_fault("Dimension.first_extension_point"@, d.first_extension_point),
            first(
                finite_fault("Dimension.second_extension_point"@, d.second_extension_point),
                first(
                    finite_fault("Dimension.center_point"@, d.center_point),
                    first(
                        finite_fault("Dimension.first_leader_point"@, d.first_leader_point),
                        first(
                            finite_fault("Dimension.second_leader_point"@, d.second_leader_point),
                            first(
                                unless(
                                    d.arc_start_parameter.finite(),
                                    "Dimension.arc_start_parameter must be finite"@,
                                ),
                                first(
                                    unless(
                                        d.arc_end_parameter.finite(),
                                        "Dimension.arc_end_parameter must be finite"@,
                                    ),
                                    unless(
                                        !d.first_extension_point.coincident(
                                            d.second_extension_point,
                                        ),
                                        "Dimension.first_extension_point and second_extension_point must not coincide"@,
                                    ),
                                ),
                            ),
                        ),
                    ),
                ),
            ),
        ),
    )
}

fn check_arc(d: &DimensionArc) -> (result: Result<(), String>)
    ensures
        fault(result) == arc_fault(*d),
{
    finite_vector("Dimension.definition_point", &d.definition_point)?;
    finite_vector("Dimension.first_extension_point", &d.first_extension_point)?;
    finite_vector("Dimension.second_extension_point", &d.second_extension_point)?;
    finite_vector("Dimension.center_point", &d.center_point)?;
    finite_vector("Dimension.first_leader_point", &d.first_leader_point)?;
    finite_vector("Dimension.second_leader_point", &d.second_leader_point)?;
    check(d.arc_start_parameter.is_finite(), "Dimension.arc_start_parameter must be finite")?;
    check(d.arc_end_parameter.is_finite(), "Dimension.arc_end_parameter must be finite")?;
    check(
        !d.first_extension_point.coincides(d.second_extension_point),
        "Dimension.first_extension_point and second_extension_point must not coincide",
    )
}

pub open spec fn large_radial_fault(d: DimensionLargeRadial) -> Fault {
    first(
        finite_fault("Dimension.definition_point"@, d.definition_point),
        first(
            finite_fault("Dimension.chord_point"@, d.chord_point),
            first(
                finite_fault("Dimension.override_center"@, d.override_center),
                first(
                    finite_fault("Dimension.jog_point"@, d.jog_point),
                    first(
                        unless(d.jog_angle.finite(), "Dimension.jog_angle must be finite"@),
                        unless(
                            !d.definition_point.coincident(d.chord_point),
                            "Dimension.definition_point and chord_point must not coincide"@,
                        ),
                    ),
                ),
            ),
        ),
    )
}

fn check_large_radial(d: &DimensionLargeRadial) -> (result: Result<(), String>)
    ensures
        fault(result) == large_radial_fault(*d),
{
    finite_vector("Dimension.definition_point", &d.definition_point)?;
    finite_vector("Dimension.chord_point", &d.chord_point)?;
    finite_vector("Dimension.override_center", &d.override_center)?;
    finite_vector("Dimension.jog_point", &d.jog_point)?;
    check(d.jog_angle.is_finite(), "Dimension.jog_angle must be finite")?;
    check(
        !d.definition_point.coincides(d.chord_point),
        "Dimension.definition_point and chord_point must not coincide",
    )
}

/// The points of a dimension must be finite and where it measures between two
/// of them, apart.
pub open spec fn dimension_geometry_fault(geometry: DimensionGeometry) -> Fault {
    match geometry {
        DimensionGeometry::Aligned(d) => aligned_fault(d),
        DimensionGeometry::Linear(d) => linear_fault(d),
        DimensionGeometry::Radius(d) => radius_fault(d),
        DimensionGeometry::Diameter(d) => diameter_fault(d),
        DimensionGeometry::Angular2Ln(d) => two_line_fault(d),
        DimensionGeometry::Angular3Pt(d) => three_point_fault(d),
        DimensionGeometry::Ordinate(d) => ordinate_fault(d),
        DimensionGeometry::Arc(d) => arc_fault(d),
        DimensionGeometry::LargeRadial(d) => large_radial_fault(d),
    }
}

fn check_dimension_geometry(geometry: &DimensionGeometry) -> (result: Result<(), String>)
    ensures
        fault(result) == dimension_geometry_fault(*geometry),
{
    match geometry {
        DimensionGeometry::Aligned(d) => check_aligned(d),
        DimensionGeometry::Linear(d) => check_linear(d),
        DimensionGeometry::Radius(d) => check_radius(d),
        DimensionGeometry::Diameter(d) => check_diameter(d),
        DimensionGeometry::Angular2Ln(d) => check_two_line(d),
        DimensionGeometry::Angular3Pt(d) => check_three_point(d),
        DimensionGeometry::Ordinate(d) => check_ordinate(d),
        DimensionGeometry::Arc(d) => check_arc(d),
        DimensionGeometry::LargeRadial(d) => check_large_radial(d),
    }
}

/// The rules for a dimension of any kind.
///
/// The measured value belongs to the host, so it is not an input; but the points
/// must define a finite one.
pub open spec fn dimension_fault(new: Dimension) -> Fault {
    first(
        normal_fault("Dimension.normal"@, new.normal),
        first(
            finite_fault("Dimension.text_middle_point"@, new.text_middle_point),
            first(
                unless(
                    new.text_rotation.finite() && new.horizontal_direction.finite(),
                    "Dimension.text_rotation and horizontal_direction must be finite"@,
                ),
                first(
                    unless(!blank(new.style_name@), "Dimension.style_name is empty"@),
                    first(
                        dimension_geometry_fault(new.geometry),
                        unless(
                            new.measurement.finite(),
                            "Dimension geometry does not define a finite measurement"@,
                        ),
                    ),
                ),
            ),
        ),
    )
}

pub fn validate_dimension(new: &Dimension) -> (result: Result<(), String>)
    ensures
        fault(result) == dimension_fault(*new),
{
    solid_normal("Dimension.normal", &new.normal)?;
    finite_vector("Dimension.text_middle_point", &new.text_middle_point)?;
    check(
        new.text_rotation.is_finite() && new.horizontal_direction.is_finite(),
        "Dimension.text_rotation and horizontal_direction must be finite",
    )?;
    check(!is_blank(&new.style_name), "Dimension.style_name is empty")?;
    check_dimension_geometry(&new.geometry)?;
    check(new.measurement.is_finite(), "Dimension geometry does not define a finite measurement")
}

} // verus!
