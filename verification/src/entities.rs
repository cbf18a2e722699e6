//! The entities of a drawing.
//!
//! An entity has the fields that every kind shares, the fields of its kind that
//! the host reads, and an encoded record with all the others. The host hands
//! the record on and compares it, but never looks inside.

use crate::agree::{share, Agree};
use crate::geometry::{Handle, Vector2, Vector3};
use crate::scalar::Scalar;
use std::sync::Arc;
use vstd::prelude::*;

verus! {

/// A color.
#[derive(Clone, Copy, PartialEq, Eq, Structural, Debug)]
pub enum Color {
    ByLayer,
    Unset,
    ByBlock,
    Index(u8),
    Rgb(u8, u8, u8),
}

/// A value that the host keeps whole and does not read: the numbers in it, in
/// order, and the rest of it as bytes.
#[derive(Clone, Debug)]
pub struct Encoded {
    pub numbers: Vec<Scalar>,
    pub rest: Vec<u8>,
}

impl Agree for Encoded {
    open spec fn agrees(self, other: Self) -> bool {
        &&& self.numbers.agrees(other.numbers)
        &&& self.rest.agrees(other.rest)
    }

    fn agree(&self, other: &Self) -> (result: bool) {
        self.numbers.agree(&other.numbers) && self.rest.agree(&other.rest)
    }

    proof fn agrees_with_itself(&self) {
        self.numbers.agrees_with_itself();
        self.rest.agrees_with_itself();
    }
}

impl Encoded {
    /// There is nothing in it.
    pub open spec fn empty(self) -> bool {
        self.numbers@.len() == 0 && self.rest@.len() == 0
    }

    /// A value with nothing in it.
    pub fn none() -> (result: Self)
        ensures
            result.empty(),
    {
        Encoded { numbers: Vec::new(), rest: Vec::new() }
    }
}

/// One value of an extended-data record.
#[derive(Clone, Debug)]
pub enum XDataValue {
    String(String),
    ControlString(String),
    LayerName(String),
    BinaryData(Vec<u8>),
    Handle(Handle),
    Point3D(Vector3),
    Position3D(Vector3),
    Displacement3D(Vector3),
    Direction3D(Vector3),
    Real(Scalar),
    Distance(Scalar),
    ScaleFactor(Scalar),
    Integer16(i16),
    Integer32(i32),
}

impl Agree for XDataValue {
    open spec fn agrees(self, other: Self) -> bool {
        match (self, other) {
            (XDataValue::String(a), XDataValue::String(b)) => a@ == b@,
            (XDataValue::ControlString(a), XDataValue::ControlString(b)) => a@ == b@,
            (XDataValue::LayerName(a), XDataValue::LayerName(b)) => a@ == b@,
            (XDataValue::BinaryData(a), XDataValue::BinaryData(b)) => a.agrees(b),
            (XDataValue::Handle(a), XDataValue::Handle(b)) => a == b,
            (XDataValue::Point3D(a), XDataValue::Point3D(b)) => a.agrees(b),
            (XDataValue::Position3D(a), XDataValue::Position3D(b)) => a.agrees(b),
            (XDataValue::Displacement3D(a), XDataValue::Displacement3D(b)) => a.agrees(b),
            (XDataValue::Direction3D(a), XDataValue::Direction3D(b)) => a.agrees(b),
            (XDataValue::Real(a), XDataValue::Real(b)) => a.agrees(b),
            (XDataValue::Distance(a), XDataValue::Distance(b)) => a.agrees(b),
            (XDataValue::ScaleFactor(a), XDataValue::ScaleFactor(b)) => a.agrees(b),
            (XDataValue::Integer16(a), XDataValue::Integer16(b)) => a == b,
            (XDataValue::Integer32(a), XDataValue::Integer32(b)) => a == b,
            _ => false,
        }
    }

    fn agree(&self, other: &Self) -> (result: bool) {
        match (self, other) {
            (XDataValue::String(a), XDataValue::String(b)) => a.agree(b),
            (XDataValue::ControlString(a), XDataValue::ControlString(b)) => a.agree(b),
            (XDataValue::LayerName(a), XDataValue::LayerName(b)) => a.agree(b),
            (XDataValue::BinaryData(a), XDataValue::BinaryData(b)) => a.agree(b),
            (XDataValue::Handle(a), XDataValue::Handle(b)) => *a == *b,
            (XDataValue::Point3D(a), XDataValue::Point3D(b)) => a.agree(b),
            (XDataValue::Position3D(a), XDataValue::Position3D(b)) => a.agree(b),
            (XDataValue::Displacement3D(a), XDataValue::Displacement3D(b)) => a.agree(b),
            (XDataValue::Direction3D(a), XDataValue::Direction3D(b)) => a.agree(b),
            (XDataValue::Real(a), XDataValue::Real(b)) => a.agree(b),
            (XDataValue::Distance(a), XDataValue::Distance(b)) => a.agree(b),
            (XDataValue::ScaleFactor(a), XDataValue::ScaleFactor(b)) => a.agree(b),
            (XDataValue::Integer16(a), XDataValue::Integer16(b)) => *a == *b,
            (XDataValue::Integer32(a), XDataValue::Integer32(b)) => *a == *b,
            _ => false,
        }
    }

    proof fn agrees_with_itself(&self) {
        match self {
            XDataValue::BinaryData(value) => value.agrees_with_itself(),
            _ => {},
        }
    }
}

/// The extended data that one application attached to an entity.
#[derive(Clone, Debug)]
pub struct ExtendedDataRecord {
    pub application_name: String,
    pub values: Arc<Vec<XDataValue>>,
}

impl Agree for ExtendedDataRecord {
    open spec fn agrees(self, other: Self) -> bool {
        &&& self.application_name@ == other.application_name@
        &&& self.values.agrees(other.values)
    }

    fn agree(&self, other: &Self) -> (result: bool) {
        self.application_name.agree(&other.application_name) && self.values.agree(&other.values)
    }

    proof fn agrees_with_itself(&self) {
        self.values.agrees_with_itself();
    }
}

impl ExtendedDataRecord {
    pub fn copy(&self) -> (result: Self)
        ensures
            result == *self,
    {
        ExtendedDataRecord {
            application_name: self.application_name.clone(),
            values: share(&self.values),
        }
    }
}

/// The bytes of extended data as a file held them, by the handle of the
/// application.
#[derive(Clone, Debug)]
pub struct RawRecord {
    pub application: u64,
    pub bytes: Arc<Vec<u8>>,
}

impl Agree for RawRecord {
    open spec fn agrees(self, other: Self) -> bool {
        self.application == other.application && self.bytes.agrees(other.bytes)
    }

    fn agree(&self, other: &Self) -> (result: bool) {
        self.application == other.application && self.bytes.agree(&other.bytes)
    }

    proof fn agrees_with_itself(&self) {
        self.bytes.agrees_with_itself();
    }
}

impl RawRecord {
    pub fn copy(&self) -> (result: Self)
        ensures
            result == *self,
    {
        RawRecord { application: self.application, bytes: share(&self.bytes) }
    }
}

/// All extended data of an entity.
#[derive(Clone, Debug)]
pub struct ExtendedData {
    pub records: Vec<ExtendedDataRecord>,
    pub raw_dwg_eed: Vec<RawRecord>,
}

impl Agree for ExtendedData {
    open spec fn agrees(self, other: Self) -> bool {
        self.records.agrees(other.records) && self.raw_dwg_eed.agrees(other.raw_dwg_eed)
    }

    fn agree(&self, other: &Self) -> (result: bool) {
        self.records.agree(&other.records) && self.raw_dwg_eed.agree(&other.raw_dwg_eed)
    }

    proof fn agrees_with_itself(&self) {
        self.records.agrees_with_itself();
        self.raw_dwg_eed.agrees_with_itself();
    }
}

/// What every entity has. A null owner stands for none.
#[derive(Clone, Debug)]
pub struct EntityCommon {
    pub handle: Handle,
    pub layer: String,
    pub owner_handle: Handle,
    /// The entity asks for the sheet where it has no owner.
    pub on_paper: bool,
    pub extended_data: Arc<ExtendedData>,
    /// The encoded color, linetype and whatever else all entities have. None of
    /// it stands for the defaults.
    pub look: Arc<Encoded>,
}

impl Agree for EntityCommon {
    open spec fn agrees(self, other: Self) -> bool {
        &&& self.handle == other.handle
        &&& self.layer@ == other.layer@
        &&& self.owner_handle == other.owner_handle
        &&& self.on_paper == other.on_paper
        &&& self.extended_data.agrees(other.extended_data)
        &&& self.look.agrees(other.look)
    }

    fn agree(&self, other: &Self) -> (result: bool) {
        self.handle == other.handle && self.layer.agree(&other.layer)
            && self.owner_handle == other.owner_handle && self.on_paper == other.on_paper
            && self.extended_data.agree(&other.extended_data) && self.look.agree(&other.look)
    }

    proof fn agrees_with_itself(&self) {
        self.extended_data.agrees_with_itself();
        self.look.agrees_with_itself();
    }
}

impl EntityCommon {
    pub fn copy(&self) -> (result: Self)
        ensures
            result == *self,
    {
        EntityCommon {
            handle: self.handle,
            layer: self.layer.clone(),
            owner_handle: self.owner_handle,
            on_paper: self.on_paper,
            extended_data: share(&self.extended_data),
            look: share(&self.look),
        }
    }
}

/// An attribute as the block reference that owns it stores it.
#[derive(Clone, Debug)]
pub struct AttributeRecord {
    pub common: EntityCommon,
    pub value: Arc<AttributeEntity>,
    pub record: Arc<Encoded>,
}

impl Agree for AttributeRecord {
    open spec fn agrees(self, other: Self) -> bool {
        &&& self.common.agrees(other.common)
        &&& self.value.agrees(other.value)
        &&& self.record.agrees(other.record)
    }

    fn agree(&self, other: &Self) -> (result: bool) {
        self.common.agree(&other.common) && self.value.agree(&other.value)
            && self.record.agree(&other.record)
    }

    proof fn agrees_with_itself(&self) {
        self.common.agrees_with_itself();
        self.value.agrees_with_itself();
        self.record.agrees_with_itself();
    }
}

impl AttributeRecord {
    pub fn copy(&self) -> (result: Self)
        ensures
            result == *self,
    {
        AttributeRecord {
            common: self.common.copy(),
            value: share(&self.value),
            record: share(&self.record),
        }
    }

    /// The attribute as an entity of its own.
    pub open spec fn as_entity(self) -> EntityType {
        EntityType {
            common: self.common,
            data: EntityData::AttributeEntity(self.value),
            record: self.record,
        }
    }

    pub fn to_entity(&self) -> (result: EntityType)
        ensures
            result == self.as_entity(),
    {
        EntityType {
            common: self.common.copy(),
            data: EntityData::AttributeEntity(share(&self.value)),
            record: share(&self.record),
        }
    }
}

/// A point.
#[derive(Clone, Copy, PartialEq, Eq, Structural, Debug)]
pub struct Point {
    pub location: Vector3,
}

/// A line segment.
#[derive(Clone, Copy, PartialEq, Eq, Structural, Debug)]
pub struct Line {
    pub start: Vector3,
    pub end: Vector3,
}

/// A full circle.
#[derive(Clone, Copy, PartialEq, Eq, Structural, Debug)]
pub struct Circle {
    pub center: Vector3,
    pub radius: Scalar,
}

/// A circular arc.
#[derive(Clone, Copy, PartialEq, Eq, Structural, Debug)]
pub struct ArcSegment {
    pub center: Vector3,
    pub radius: Scalar,
}

/// A half line.
#[derive(Clone, Copy, PartialEq, Eq, Structural, Debug)]
pub struct Ray {
    pub base_point: Vector3,
    pub direction: Vector3,
}

/// A construction line.
#[derive(Clone, Copy, PartialEq, Eq, Structural, Debug)]
pub struct XLine {
    pub base_point: Vector3,
    pub direction: Vector3,
}

/// A filled planar triangle or quadrilateral.
#[derive(Clone, Copy, PartialEq, Eq, Structural, Debug)]
pub struct Solid {
    pub first_corner: Vector3,
    pub second_corner: Vector3,
    pub third_corner: Vector3,
    pub fourth_corner: Vector3,
    pub normal: Vector3,
    pub thickness: Scalar,
}

/// A triangle or quadrilateral in space.
#[derive(Clone, Copy, PartialEq, Eq, Structural, Debug)]
pub struct Face3D {
    pub first_corner: Vector3,
    pub second_corner: Vector3,
    pub third_corner: Vector3,
    pub fourth_corner: Vector3,
    /// One bit for each hidden edge; the low four are in use.
    pub invisible_edges: u8,
}

/// A geometric tolerance frame.
#[derive(Clone, Debug)]
pub struct Tolerance {
    pub insertion_point: Vector3,
    pub direction: Vector3,
    pub normal: Vector3,
    pub text: String,
    pub dimension_style_name: String,
    pub dimension_style_handle: Option<Handle>,
    pub text_height: Scalar,
    pub dimension_gap: Scalar,
}

impl Tolerance {
    /// The frame, bound to a dimension style.
    pub fn bound_to(&self, style: Option<Handle>) -> (result: Self)
        ensures
            result == (Tolerance { dimension_style_handle: style, ..*self }),
    {
        Tolerance {
            insertion_point: self.insertion_point,
            direction: self.direction,
            normal: self.normal,
            text: self.text.clone(),
            dimension_style_name: self.dimension_style_name.clone(),
            dimension_style_handle: style,
            text_height: self.text_height,
            dimension_gap: self.dimension_gap,
        }
    }
}

/// A glyph of a shape file.
#[derive(Clone, Debug)]
pub struct Shape {
    pub insertion_point: Vector3,
    pub normal: Vector3,
    pub size: Scalar,
    pub shape_name: String,
    pub shape_number: i32,
    pub rotation: Scalar,
    pub relative_x_scale: Scalar,
    pub oblique_angle: Scalar,
    pub thickness: Scalar,
    pub style_name: String,
    pub style_handle: Option<Handle>,
}

impl Shape {
    /// The glyph, bound to a text style.
    pub fn bound_to(&self, style: Option<Handle>) -> (result: Self)
        ensures
            result == (Shape { style_handle: style, ..*self }),
    {
        Shape {
            insertion_point: self.insertion_point,
            normal: self.normal,
            size: self.size,
            shape_name: self.shape_name.clone(),
            shape_number: self.shape_number,
            rotation: self.rotation,
            relative_x_scale: self.relative_x_scale,
            oblique_angle: self.oblique_angle,
            thickness: self.thickness,
            style_name: self.style_name.clone(),
            style_handle: style,
        }
    }
}

/// What a leader was created with.
#[derive(Clone, Copy, PartialEq, Eq, Structural, Debug)]
pub enum LeaderCreationType {
    WithText,
    WithTolerance,
    WithBlock,
    NoAnnotation,
}

/// An arrow that points at an annotation.
#[derive(Clone, Debug)]
pub struct Leader {
    pub dimension_style: String,
    pub creation_type: LeaderCreationType,
    pub text_height: Scalar,
    pub text_width: Scalar,
    pub vertices: Arc<Vec<Vector3>>,
    pub annotation_handle: Handle,
    pub normal: Vector3,
    pub horizontal_direction: Vector3,
    pub block_offset: Vector3,
    pub annotation_offset: Vector3,
}

/// The cuts of one line element at a multiline vertex.
#[derive(Clone, Debug)]
pub struct MLineSegment {
    pub parameters: Vec<Scalar>,
    pub area_fill_parameters: Vec<Scalar>,
}

impl Agree for MLineSegment {
    open spec fn agrees(self, other: Self) -> bool {
        &&& self.parameters.agrees(other.parameters)
        &&& self.area_fill_parameters.agrees(other.area_fill_parameters)
    }

    fn agree(&self, other: &Self) -> (result: bool) {
        self.parameters.agree(&other.parameters)
            && self.area_fill_parameters.agree(&other.area_fill_parameters)
    }

    proof fn agrees_with_itself(&self) {
        self.parameters.agrees_with_itself();
        self.area_fill_parameters.agrees_with_itself();
    }
}

/// A multiline vertex.
#[derive(Clone, Debug)]
pub struct MLineVertex {
    pub position: Vector3,
    pub direction: Vector3,
    pub miter: Vector3,
    pub segments: Vec<MLineSegment>,
}

impl Agree for MLineVertex {
    open spec fn agrees(self, other: Self) -> bool {
        &&& self.position.agrees(other.position)
        &&& self.direction.agrees(other.direction)
        &&& self.miter.agrees(other.miter)
        &&& self.segments.agrees(other.segments)
    }

    fn agree(&self, other: &Self) -> (result: bool) {
        self.position.agree(&other.position)
            && self.direction.agree(&other.direction)
            && self.miter.agree(&other.miter)
            && self.segments.agree(&other.segments)
    }

    proof fn agrees_with_itself(&self) {
        self.position.agrees_with_itself();
        self.direction.agrees_with_itself();
        self.miter.agrees_with_itself();
        self.segments.agrees_with_itself();
    }
}

/// A bundle of parallel lines.
#[derive(Clone, Debug)]
pub struct MLine {
    /// Bit 1 marks a closed multiline; the low four bits are in use.
    pub flags: u16,
    pub scale_factor: Scalar,
    pub normal: Vector3,
    pub style_name: String,
    pub style_handle: Option<Handle>,
    pub vertices: Arc<Vec<MLineVertex>>,
}

impl MLine {
    /// The multiline, bound to a style.
    pub fn bound_to(&self, style: Option<Handle>) -> (result: Self)
        ensures
            result == (MLine { style_handle: style, ..*self }),
    {
        MLine {
            flags: self.flags,
            scale_factor: self.scale_factor,
            normal: self.normal,
            style_name: self.style_name.clone(),
            style_handle: style,
            vertices: share(&self.vertices),
        }
    }
}

/// Measures along the line through its two points.
#[derive(Clone, Copy, PartialEq, Eq, Structural, Debug)]
pub struct DimensionAligned {
    pub definition_point: Vector3,
    pub first_point: Vector3,
    pub second_point: Vector3,
    pub ext_line_rotation: Scalar,
}

impl Agree for DimensionAligned {
    open spec fn agrees(self, other: Self) -> bool {
        &&& self.definition_point.agrees(other.definition_point)
        &&& self.first_point.agrees(other.first_point)
        &&& self.second_point.agrees(other.second_point)
        &&& self.ext_line_rotation.agrees(other.ext_line_rotation)
    }

    fn agree(&self, other: &Self) -> (result: bool) {
        self.definition_point.agree(&other.definition_point)
            && self.first_point.agree(&other.first_point)
            && self.second_point.agree(&other.second_point)
            && self.ext_line_rotation.agree(&other.ext_line_rotation)
    }

    proof fn agrees_with_itself(&self) {
        self.definition_point.agrees_with_itself();
        self.first_point.agrees_with_itself();
        self.second_point.agrees_with_itself();
        self.ext_line_rotation.agrees_with_itself();
    }
}

/// Measures along a fixed direction.
#[derive(Clone, Copy, PartialEq, Eq, Structural, Debug)]
pub struct DimensionLinear {
    pub definition_point: Vector3,
    pub first_point: Vector3,
    pub second_point: Vector3,
    pub rotation: Scalar,
    pub ext_line_rotation: Scalar,
}

impl Agree for DimensionLinear {
    open spec fn agrees(self, other: Self) -> bool {
        &&& self.definition_point.agrees(other.definition_point)
        &&& self.first_point.agrees(other.first_point)
        &&& self.second_point.agrees(other.second_point)
        &&& self.rotation.agrees(other.rotation)
        &&& self.ext_line_rotation.agrees(other.ext_line_rotation)
    }

    fn agree(&self, other: &Self) -> (result: bool) {
        self.definition_point.agree(&other.definition_point)
            && self.first_point.agree(&other.first_point)
            && self.second_point.agree(&other.second_point)
            && self.rotation.agree(&other.rotation)
            && self.ext_line_rotation.agree(&other.ext_line_rotation)
    }

    proof fn agrees_with_itself(&self) {
        self.definition_point.agrees_with_itself();
        self.first_point.agrees_with_itself();
        self.second_point.agrees_with_itself();
        self.rotation.agrees_with_itself();
        self.ext_line_rotation.agrees_with_itself();
    }
}

/// Measures a radius.
#[derive(Clone, Copy, PartialEq, Eq, Structural, Debug)]
pub struct DimensionRadius {
    pub definition_point: Vector3,
    pub angle_vertex: Vector3,
    pub leader_length: Scalar,
}

impl Agree for DimensionRadius {
    open spec fn agrees(self, other: Self) -> bool {
        &&& self.definition_point.agrees(other.definition_point)
        &&& self.angle_vertex.agrees(other.angle_vertex)
        &&& self.leader_length.agrees(other.leader_length)
    }

    fn agree(&self, other: &Self) -> (result: bool) {
        self.definition_point.agree(&other.definition_point)
            && self.angle_vertex.agree(&other.angle_vertex)
            && self.leader_length.agree(&other.leader_length)
    }

    proof fn agrees_with_itself(&self) {
        self.definition_point.agrees_with_itself();
        self.angle_vertex.agrees_with_itself();
        self.leader_length.agrees_with_itself();
    }
}

/// Measures a diameter.
#[derive(Clone, Copy, PartialEq, Eq, Structural, Debug)]
pub struct DimensionDiameter {
    pub definition_point: Vector3,
    pub angle_vertex: Vector3,
    pub leader_length: Scalar,
}

impl Agree for DimensionDiameter {
    open spec fn agrees(self, other: Self) -> bool {
        &&& self.definition_point.agrees(other.definition_point)
        &&& self.angle_vertex.agrees(other.angle_vertex)
        &&& self.leader_length.agrees(other.leader_length)
    }

    fn agree(&self, other: &Self) -> (result: bool) {
        self.definition_point.agree(&other.definition_point)
            && self.angle_vertex.agree(&other.angle_vertex)
            && self.leader_length.agree(&other.leader_length)
    }

    proof fn agrees_with_itself(&self) {
        self.definition_point.agrees_with_itself();
        self.angle_vertex.agrees_with_itself();
        self.leader_length.agrees_with_itself();
    }
}

/// Measures the angle of two lines.
#[derive(Clone, Copy, PartialEq, Eq, Structural, Debug)]
pub struct DimensionAngular2Ln {
    pub definition_point: Vector3,
    pub dimension_arc: Vector3,
    pub first_point: Vector3,
    pub second_point: Vector3,
    pub angle_vertex: Vector3,
}

impl Agree for DimensionAngular2Ln {
    open spec fn agrees(self, other: Self) -> bool {
        &&& self.definition_point.agrees(other.definition_point)
        &&& self.dimension_arc.agrees(other.dimension_arc)
        &&& self.first_point.agrees(other.first_point)
        &&& self.second_point.agrees(other.second_point)
        &&& self.angle_vertex.agrees(other.angle_vertex)
    }

    fn agree(&self, other: &Self) -> (result: bool) {
        self.definition_point.agree(&other.definition_point)
            && self.dimension_arc.agree(&other.dimension_arc)
            && self.first_point.agree(&other.first_point)
            && self.second_point.agree(&other.second_point)
            && self.angle_vertex.agree(&other.angle_vertex)
    }

    proof fn agrees_with_itself(&self) {
        self.definition_point.agrees_with_itself();
        self.dimension_arc.agrees_with_itself();
        self.first_point.agrees_with_itself();
        self.second_point.agrees_with_itself();
        self.angle_vertex.agrees_with_itself();
    }
}

/// Measures the angle at a vertex.
#[derive(Clone, Copy, PartialEq, Eq, Structural, Debug)]
pub struct DimensionAngular3Pt {
    pub definition_point: Vector3,
    pub first_point: Vector3,
    pub second_point: Vector3,
    pub angle_vertex: Vector3,
}

impl Agree for DimensionAngular3Pt {
    open spec fn agrees(self, other: Self) -> bool {
        &&& self.definition_point.agrees(other.definition_point)
        &&& self.first_point.agrees(other.first_point)
        &&& self.second_point.agrees(other.second_point)
        &&& self.angle_vertex.agrees(other.angle_vertex)
    }

    fn agree(&self, other: &Self) -> (result: bool) {
        self.definition_point.agree(&other.definition_point)
            && self.first_point.agree(&other.first_point)
            && self.second_point.agree(&other.second_point)
            && self.angle_vertex.agree(&other.angle_vertex)
    }

    proof fn agrees_with_itself(&self) {
        self.definition_point.agrees_with_itself();
        self.first_point.agrees_with_itself();
        self.second_point.agrees_with_itself();
        self.angle_vertex.agrees_with_itself();
    }
}

/// Measures one coordinate.
#[derive(Clone, Copy, PartialEq, Eq, Structural, Debug)]
pub struct DimensionOrdinate {
    pub definition_point: Vector3,
    pub feature_location: Vector3,
    pub leader_endpoint: Vector3,
}

impl Agree for DimensionOrdinate {
    open spec fn agrees(self, other: Self) -> bool {
        &&& self.definition_point.agrees(other.definition_point)
        &&& self.feature_location.agrees(other.feature_location)
        &&& self.leader_endpoint.agrees(other.leader_endpoint)
    }

    fn agree(&self, other: &Self) -> (result: bool) {
        self.definition_point.agree(&other.definition_point)
            && self.feature_location.agree(&other.feature_location)
            && self.leader_endpoint.agree(&other.leader_endpoint)
    }

    proof fn agrees_with_itself(&self) {
        self.definition_point.agrees_with_itself();
        self.feature_location.agrees_with_itself();
        self.leader_endpoint.agrees_with_itself();
    }
}

/// Measures the length of an arc.
#[derive(Clone, Copy, PartialEq, Eq, Structural, Debug)]
pub struct DimensionArc {
    pub definition_point: Vector3,
    pub first_extension_point: Vector3,
    pub second_extension_point: Vector3,
    pub center_point: Vector3,
    pub first_leader_point: Vector3,
    pub second_leader_point: Vector3,
    pub arc_start_parameter: Scalar,
    pub arc_end_parameter: Scalar,
}

impl Agree for DimensionArc {
    open spec fn agrees(self, other: Self) -> bool {
        &&& self.definition_point.agrees(other.definition_point)
        &&& self.first_extension_point.agrees(other.first_extension_point)
        &&& self.second_extension_point.agrees(other.second_extension_point)
        &&& self.center_point.agrees(other.center_point)
        &&& self.first_leader_point.agrees(other.first_leader_point)
        &&& self.second_leader_point.agrees(other.second_leader_point)
        &&& self.arc_start_parameter.agrees(other.arc_start_parameter)
        &&& self.arc_end_parameter.agrees(other.arc_end_parameter)
    }

    fn agree(&self, other: &Self) -> (result: bool) {
        self.definition_point.agree(&other.definition_point)
            && self.first_extension_point.agree(&other.first_extension_point)
            && self.second_extension_point.agree(&other.second_extension_point)
            && self.center_point.agree(&other.center_point)
            && self.first_leader_point.agree(&other.first_leader_point)
            && self.second_leader_point.agree(&other.second_leader_point)
            && self.arc_start_parameter.agree(&other.arc_start_parameter)
            && self.arc_end_parameter.agree(&other.arc_end_parameter)
    }

    proof fn agrees_with_itself(&self) {
        self.definition_point.agrees_with_itself();
        self.first_extension_point.agrees_with_itself();
        self.second_extension_point.agrees_with_itself();
        self.center_point.agrees_with_itself();
        self.first_leader_point.agrees_with_itself();
        self.second_leader_point.agrees_with_itself();
        self.arc_start_parameter.agrees_with_itself();
        self.arc_end_parameter.agrees_with_itself();
    }
}

/// Measures a large radius with a jogged line.
#[derive(Clone, Copy, PartialEq, Eq, Structural, Debug)]
pub struct DimensionLargeRadial {
    pub definition_point: Vector3,
    pub chord_point: Vector3,
    pub override_center: Vector3,
    pub jog_point: Vector3,
    pub jog_angle: Scalar,
}

impl Agree for DimensionLargeRadial {
    open spec fn agrees(self, other: Self) -> bool {
        &&& self.definition_point.agrees(other.definition_point)
        &&& self.chord_point.agrees(other.chord_point)
        &&& self.override_center.agrees(other.override_center)
        &&& self.jog_point.agrees(other.jog_point)
        &&& self.jog_angle.agrees(other.jog_angle)
    }

    fn agree(&self, other: &Self) -> (result: bool) {
        self.definition_point.agree(&other.definition_point)
            && self.chord_point.agree(&other.chord_point)
            && self.override_center.agree(&other.override_center)
            && self.jog_point.agree(&other.jog_point)
            && self.jog_angle.agree(&other.jog_angle)
    }

    proof fn agrees_with_itself(&self) {
        self.definition_point.agrees_with_itself();
        self.chord_point.agrees_with_itself();
        self.override_center.agrees_with_itself();
        self.jog_point.agrees_with_itself();
        self.jog_angle.agrees_with_itself();
    }
}

/// What a dimension measures.
#[derive(Clone, Copy, PartialEq, Eq, Structural, Debug)]
pub enum DimensionGeometry {
    Aligned(DimensionAligned),
    Linear(DimensionLinear),
    Radius(DimensionRadius),
    Diameter(DimensionDiameter),
    Angular2Ln(DimensionAngular2Ln),
    Angular3Pt(DimensionAngular3Pt),
    Ordinate(DimensionOrdinate),
    Arc(DimensionArc),
    LargeRadial(DimensionLargeRadial),
}

impl Agree for DimensionGeometry {
    open spec fn agrees(self, other: Self) -> bool {
        match (self, other) {
            (DimensionGeometry::Aligned(a), DimensionGeometry::Aligned(b)) => a.agrees(b),
            (DimensionGeometry::Linear(a), DimensionGeometry::Linear(b)) => a.agrees(b),
            (DimensionGeometry::Radius(a), DimensionGeometry::Radius(b)) => a.agrees(b),
            (DimensionGeometry::Diameter(a), DimensionGeometry::Diameter(b)) => a.agrees(b),
            (DimensionGeometry::Angular2Ln(a), DimensionGeometry::Angular2Ln(b)) => a.agrees(b),
            (DimensionGeometry::Angular3Pt(a), DimensionGeometry::Angular3Pt(b)) => a.agrees(b),
            (DimensionGeometry::Ordinate(a), DimensionGeometry::Ordinate(b)) => a.agrees(b),
            (DimensionGeometry::Arc(a), DimensionGeometry::Arc(b)) => a.agrees(b),
            (DimensionGeometry::LargeRadial(a), DimensionGeometry::LargeRadial(b)) => a.agrees(b),
            _ => false,
        }
    }

    fn agree(&self, other: &Self) -> (result: bool) {
        match (self, other) {
            (DimensionGeometry::Aligned(a), DimensionGeometry::Aligned(b)) => a.agree(b),
            (DimensionGeometry::Linear(a), DimensionGeometry::Linear(b)) => a.agree(b),
            (DimensionGeometry::Radius(a), DimensionGeometry::Radius(b)) => a.agree(b),
            (DimensionGeometry::Diameter(a), DimensionGeometry::Diameter(b)) => a.agree(b),
            (DimensionGeometry::Angular2Ln(a), DimensionGeometry::Angular2Ln(b)) => a.agree(b),
            (DimensionGeometry::Angular3Pt(a), DimensionGeometry::Angular3Pt(b)) => a.agree(b),
            (DimensionGeometry::Ordinate(a), DimensionGeometry::Ordinate(b)) => a.agree(b),
            (DimensionGeometry::Arc(a), DimensionGeometry::Arc(b)) => a.agree(b),
            (DimensionGeometry::LargeRadial(a), DimensionGeometry::LargeRadial(b)) => a.agree(b),
            _ => false,
        }
    }

    proof fn agrees_with_itself(&self) {
        match self {
            DimensionGeometry::Aligned(a) => a.agrees_with_itself(),
            DimensionGeometry::Linear(a) => a.agrees_with_itself(),
            DimensionGeometry::Radius(a) => a.agrees_with_itself(),
            DimensionGeometry::Diameter(a) => a.agrees_with_itself(),
            DimensionGeometry::Angular2Ln(a) => a.agrees_with_itself(),
            DimensionGeometry::Angular3Pt(a) => a.agrees_with_itself(),
            DimensionGeometry::Ordinate(a) => a.agrees_with_itself(),
            DimensionGeometry::Arc(a) => a.agrees_with_itself(),
            DimensionGeometry::LargeRadial(a) => a.agrees_with_itself(),
        }
    }
}

/// A dimension of any kind.
#[derive(Clone, Debug)]
pub struct Dimension {
    pub normal: Vector3,
    pub text_middle_point: Vector3,
    pub text_rotation: Scalar,
    pub horizontal_direction: Scalar,
    pub style_name: String,
    pub geometry: DimensionGeometry,
    /// The measured value, as the geometry engine computes it from `geometry`.
    pub measurement: Scalar,
}

impl Agree for Dimension {
    open spec fn agrees(self, other: Self) -> bool {
        &&& self.normal.agrees(other.normal)
        &&& self.text_middle_point.agrees(other.text_middle_point)
        &&& self.text_rotation.agrees(other.text_rotation)
        &&& self.horizontal_direction.agrees(other.horizontal_direction)
        &&& self.style_name.agrees(other.style_name)
        &&& self.geometry.agrees(other.geometry)
    }

    fn agree(&self, other: &Self) -> (result: bool) {
        self.normal.agree(&other.normal)
            && self.text_middle_point.agree(&other.text_middle_point)
            && self.text_rotation.agree(&other.text_rotation)
            && self.horizontal_direction.agree(&other.horizontal_direction)
            && self.style_name.agree(&other.style_name)
            && self.geometry.agree(&other.geometry)
    }

    proof fn agrees_with_itself(&self) {
        self.normal.agrees_with_itself();
        self.text_middle_point.agrees_with_itself();
        self.text_rotation.agrees_with_itself();
        self.horizontal_direction.agrees_with_itself();
        self.style_name.agrees_with_itself();
        self.geometry.agrees_with_itself();
    }
}

/// What a multileader carries at its end.
#[derive(Clone, Copy, PartialEq, Eq, Structural, Debug)]
pub enum LeaderContentType {
    Empty,
    Block,
    MText,
    Tolerance,
}

/// One line of a multileader.
#[derive(Clone, Debug)]
pub struct LeaderLine {
    pub points: Vec<Vector3>,
}

impl Agree for LeaderLine {
    open spec fn agrees(self, other: Self) -> bool {
        &&& self.points.agrees(other.points)
    }

    fn agree(&self, other: &Self) -> (result: bool) {
        self.points.agree(&other.points)
    }

    proof fn agrees_with_itself(&self) {
        self.points.agrees_with_itself();
    }
}

/// The lines that meet in one landing.
#[derive(Clone, Debug)]
pub struct LeaderRoot {
    pub connection_point: Vector3,
    pub direction: Vector3,
    pub landing_distance: Scalar,
    pub lines: Vec<LeaderLine>,
}

impl Agree for LeaderRoot {
    open spec fn agrees(self, other: Self) -> bool {
        &&& self.connection_point.agrees(other.connection_point)
        &&& self.direction.agrees(other.direction)
        &&& self.landing_distance.agrees(other.landing_distance)
        &&& self.lines.agrees(other.lines)
    }

    fn agree(&self, other: &Self) -> (result: bool) {
        self.connection_point.agree(&other.connection_point)
            && self.direction.agree(&other.direction)
            && self.landing_distance.agree(&other.landing_distance)
            && self.lines.agree(&other.lines)
    }

    proof fn agrees_with_itself(&self) {
        self.connection_point.agrees_with_itself();
        self.direction.agrees_with_itself();
        self.landing_distance.agrees_with_itself();
        self.lines.agrees_with_itself();
    }
}

/// The content that a multileader shows.
#[derive(Clone, Debug)]
pub struct MultiLeaderContext {
    pub scale_factor: Scalar,
    pub text_height: Scalar,
    pub text_width: Scalar,
    pub text_rotation: Scalar,
    pub landing_gap: Scalar,
    pub arrowhead_size: Scalar,
    pub content_base_point: Vector3,
    pub text_location: Vector3,
    pub block_content_location: Vector3,
    pub base_point: Vector3,
    pub transform_matrix: Vec<Scalar>,
    pub leader_roots: Vec<LeaderRoot>,
    pub has_text_contents: bool,
    pub has_block_contents: bool,
    pub text_style_handle: Option<Handle>,
    pub block_content_handle: Option<Handle>,
}

impl Agree for MultiLeaderContext {
    open spec fn agrees(self, other: Self) -> bool {
        &&& self.scale_factor.agrees(other.scale_factor)
        &&& self.text_height.agrees(other.text_height)
        &&& self.text_width.agrees(other.text_width)
        &&& self.text_rotation.agrees(other.text_rotation)
        &&& self.landing_gap.agrees(other.landing_gap)
        &&& self.arrowhead_size.agrees(other.arrowhead_size)
        &&& self.content_base_point.agrees(other.content_base_point)
        &&& self.text_location.agrees(other.text_location)
        &&& self.block_content_location.agrees(other.block_content_location)
        &&& self.base_point.agrees(other.base_point)
        &&& self.transform_matrix.agrees(other.transform_matrix)
        &&& self.leader_roots.agrees(other.leader_roots)
        &&& self.has_text_contents == other.has_text_contents
        &&& self.has_block_contents == other.has_block_contents
        &&& self.text_style_handle == other.text_style_handle
        &&& self.block_content_handle == other.block_content_handle
    }

    fn agree(&self, other: &Self) -> (result: bool) {
        self.scale_factor.agree(&other.scale_factor)
            && self.text_height.agree(&other.text_height)
            && self.text_width.agree(&other.text_width)
            && self.text_rotation.agree(&other.text_rotation)
            && self.landing_gap.agree(&other.landing_gap)
            && self.arrowhead_size.agree(&other.arrowhead_size)
            && self.content_base_point.agree(&other.content_base_point)
            && self.text_location.agree(&other.text_location)
            && self.block_content_location.agree(&other.block_content_location)
            && self.base_point.agree(&other.base_point)
            && self.transform_matrix.agree(&other.transform_matrix)
            && self.leader_roots.agree(&other.leader_roots)
            && self.has_text_contents == other.has_text_contents
            && self.has_block_contents == other.has_block_contents
            && self.text_style_handle == other.text_style_handle
            && self.block_content_handle == other.block_content_handle
    }

    proof fn agrees_with_itself(&self) {
        self.scale_factor.agrees_with_itself();
        self.text_height.agrees_with_itself();
        self.text_width.agrees_with_itself();
        self.text_rotation.agrees_with_itself();
        self.landing_gap.agrees_with_itself();
        self.arrowhead_size.agrees_with_itself();
        self.content_base_point.agrees_with_itself();
        self.text_location.agrees_with_itself();
        self.block_content_location.agrees_with_itself();
        self.base_point.agrees_with_itself();
        self.transform_matrix.agrees_with_itself();
        self.leader_roots.agrees_with_itself();
    }
}

/// A leader with its content.
#[derive(Clone, Debug)]
pub struct MultiLeader {
    pub dogleg_length: Scalar,
    pub arrowhead_size: Scalar,
    pub text_height: Scalar,
    pub scale_factor: Scalar,
    pub block_rotation: Scalar,
    pub block_scale: Vector3,
    pub content_type: LeaderContentType,
    pub style_handle: Option<Handle>,
    pub text_style_handle: Option<Handle>,
    pub line_type_handle: Option<Handle>,
    pub arrowhead_handle: Option<Handle>,
    pub block_content_handle: Option<Handle>,
    pub context: MultiLeaderContext,
}

impl Agree for MultiLeader {
    open spec fn agrees(self, other: Self) -> bool {
        &&& self.dogleg_length.agrees(other.dogleg_length)
        &&& self.arrowhead_size.agrees(other.arrowhead_size)
        &&& self.text_height.agrees(other.text_height)
        &&& self.scale_factor.agrees(other.scale_factor)
        &&& self.block_rotation.agrees(other.block_rotation)
        &&& self.block_scale.agrees(other.block_scale)
        &&& self.content_type == other.content_type
        &&& self.style_handle == other.style_handle
        &&& self.text_style_handle == other.text_style_handle
        &&& self.line_type_handle == other.line_type_handle
        &&& self.arrowhead_handle == other.arrowhead_handle
        &&& self.block_content_handle == other.block_content_handle
        &&& self.context.agrees(other.context)
    }

    fn agree(&self, other: &Self) -> (result: bool) {
        self.dogleg_length.agree(&other.dogleg_length)
            && self.arrowhead_size.agree(&other.arrowhead_size)
            && self.text_height.agree(&other.text_height)
            && self.scale_factor.agree(&other.scale_factor)
            && self.block_rotation.agree(&other.block_rotation)
            && self.block_scale.agree(&other.block_scale)
            && self.content_type == other.content_type
            && self.style_handle == other.style_handle
            && self.text_style_handle == other.text_style_handle
            && self.line_type_handle == other.line_type_handle
            && self.arrowhead_handle == other.arrowhead_handle
            && self.block_content_handle == other.block_content_handle
            && self.context.agree(&other.context)
    }

    proof fn agrees_with_itself(&self) {
        self.dogleg_length.agrees_with_itself();
        self.arrowhead_size.agrees_with_itself();
        self.text_height.agrees_with_itself();
        self.scale_factor.agrees_with_itself();
        self.block_rotation.agrees_with_itself();
        self.block_scale.agrees_with_itself();
        self.context.agrees_with_itself();
    }
}

/// One piece of content in a table cell.
#[derive(Clone, Copy, PartialEq, Eq, Structural, Debug)]
pub struct CellContent {
    pub rotation: Scalar,
    pub scale: Scalar,
    pub text_height: Scalar,
    pub numeric_value: Scalar,
    pub text_style_handle: Option<Handle>,
    pub block_handle: Option<Handle>,
}

impl Agree for CellContent {
    open spec fn agrees(self, other: Self) -> bool {
        &&& self.rotation.agrees(other.rotation)
        &&& self.scale.agrees(other.scale)
        &&& self.text_height.agrees(other.text_height)
        &&& self.numeric_value.agrees(other.numeric_value)
        &&& self.text_style_handle == other.text_style_handle
        &&& self.block_handle == other.block_handle
    }

    fn agree(&self, other: &Self) -> (result: bool) {
        self.rotation.agree(&other.rotation)
            && self.scale.agree(&other.scale)
            && self.text_height.agree(&other.text_height)
            && self.numeric_value.agree(&other.numeric_value)
            && self.text_style_handle == other.text_style_handle
            && self.block_handle == other.block_handle
    }

    proof fn agrees_with_itself(&self) {
        self.rotation.agrees_with_itself();
        self.scale.agrees_with_itself();
        self.text_height.agrees_with_itself();
        self.numeric_value.agrees_with_itself();
    }
}

/// A table cell.
#[derive(Clone, Debug)]
pub struct TableCell {
    pub rotation: Scalar,
    pub geometry_scale: Scalar,
    pub block_scale: Scalar,
    pub contents: Vec<CellContent>,
}

impl Agree for TableCell {
    open spec fn agrees(self, other: Self) -> bool {
        &&& self.rotation.agrees(other.rotation)
        &&& self.geometry_scale.agrees(other.geometry_scale)
        &&& self.block_scale.agrees(other.block_scale)
        &&& self.contents.agrees(other.contents)
    }

    fn agree(&self, other: &Self) -> (result: bool) {
        self.rotation.agree(&other.rotation)
            && self.geometry_scale.agree(&other.geometry_scale)
            && self.block_scale.agree(&other.block_scale)
            && self.contents.agree(&other.contents)
    }

    proof fn agrees_with_itself(&self) {
        self.rotation.agrees_with_itself();
        self.geometry_scale.agrees_with_itself();
        self.block_scale.agrees_with_itself();
        self.contents.agrees_with_itself();
    }
}

/// A table row.
#[derive(Clone, Debug)]
pub struct TableRow {
    pub height: Scalar,
    pub cells: Vec<TableCell>,
}

impl Agree for TableRow {
    open spec fn agrees(self, other: Self) -> bool {
        &&& self.height.agrees(other.height)
        &&& self.cells.agrees(other.cells)
    }

    fn agree(&self, other: &Self) -> (result: bool) {
        self.height.agree(&other.height)
            && self.cells.agree(&other.cells)
    }

    proof fn agrees_with_itself(&self) {
        self.height.agrees_with_itself();
        self.cells.agrees_with_itself();
    }
}

/// A table column.
#[derive(Clone, Copy, PartialEq, Eq, Structural, Debug)]
pub struct TableColumn {
    pub width: Scalar,
}

impl Agree for TableColumn {
    open spec fn agrees(self, other: Self) -> bool {
        &&& self.width.agrees(other.width)
    }

    fn agree(&self, other: &Self) -> (result: bool) {
        self.width.agree(&other.width)
    }

    proof fn agrees_with_itself(&self) {
        self.width.agrees_with_itself();
    }
}

/// A block of merged cells, both corners included.
#[derive(Clone, Copy, PartialEq, Eq, Structural, Debug)]
pub struct CellRange {
    pub top_row: usize,
    pub left_col: usize,
    pub bottom_row: usize,
    pub right_col: usize,
}

impl Agree for CellRange {
    open spec fn agrees(self, other: Self) -> bool {
        &&& self.top_row == other.top_row
        &&& self.left_col == other.left_col
        &&& self.bottom_row == other.bottom_row
        &&& self.right_col == other.right_col
    }

    fn agree(&self, other: &Self) -> (result: bool) {
        self.top_row == other.top_row
            && self.left_col == other.left_col
            && self.bottom_row == other.bottom_row
            && self.right_col == other.right_col
    }

    proof fn agrees_with_itself(&self) {
    }
}

/// A table.
#[derive(Clone, Debug)]
pub struct Table {
    pub insertion_point: Vector3,
    pub normal: Vector3,
    pub horizontal_direction: Vector3,
    pub break_spacing: Scalar,
    pub table_style_handle: Option<Handle>,
    pub rows: Vec<TableRow>,
    pub columns: Vec<TableColumn>,
    pub merged_ranges: Vec<CellRange>,
}

impl Agree for Table {
    open spec fn agrees(self, other: Self) -> bool {
        &&& self.insertion_point.agrees(other.insertion_point)
        &&& self.normal.agrees(other.normal)
        &&& self.horizontal_direction.agrees(other.horizontal_direction)
        &&& self.break_spacing.agrees(other.break_spacing)
        &&& self.table_style_handle == other.table_style_handle
        &&& self.rows.agrees(other.rows)
        &&& self.columns.agrees(other.columns)
        &&& self.merged_ranges.agrees(other.merged_ranges)
    }

    fn agree(&self, other: &Self) -> (result: bool) {
        self.insertion_point.agree(&other.insertion_point)
            && self.normal.agree(&other.normal)
            && self.horizontal_direction.agree(&other.horizontal_direction)
            && self.break_spacing.agree(&other.break_spacing)
            && self.table_style_handle == other.table_style_handle
            && self.rows.agree(&other.rows)
            && self.columns.agree(&other.columns)
            && self.merged_ranges.agree(&other.merged_ranges)
    }

    proof fn agrees_with_itself(&self) {
        self.insertion_point.agrees_with_itself();
        self.normal.agrees_with_itself();
        self.horizontal_direction.agrees_with_itself();
        self.break_spacing.agrees_with_itself();
        self.rows.agrees_with_itself();
        self.columns.agrees_with_itself();
        self.merged_ranges.agrees_with_itself();
    }
}

/// What an attribute definition and an attribute have in common.
#[derive(Clone, Debug)]
pub struct AttributeText {
    pub tag: String,
    pub insertion_point: Vector3,
    pub alignment_point: Vector3,
    pub normal: Vector3,
    pub height: Scalar,
    pub rotation: Scalar,
    pub width_factor: Scalar,
    pub oblique_angle: Scalar,
    pub text_style: String,
    pub field_length: i16,
    pub line_count: i16,
    /// The encoded multiline text, where there is one.
    pub embedded_mtext: Option<Arc<Encoded>>,
}

impl Agree for AttributeText {
    open spec fn agrees(self, other: Self) -> bool {
        &&& self.tag.agrees(other.tag)
        &&& self.insertion_point.agrees(other.insertion_point)
        &&& self.alignment_point.agrees(other.alignment_point)
        &&& self.normal.agrees(other.normal)
        &&& self.height.agrees(other.height)
        &&& self.rotation.agrees(other.rotation)
        &&& self.width_factor.agrees(other.width_factor)
        &&& self.oblique_angle.agrees(other.oblique_angle)
        &&& self.text_style.agrees(other.text_style)
        &&& self.field_length == other.field_length
        &&& self.line_count == other.line_count
        &&& self.embedded_mtext.agrees(other.embedded_mtext)
    }

    fn agree(&self, other: &Self) -> (result: bool) {
        self.tag.agree(&other.tag)
            && self.insertion_point.agree(&other.insertion_point)
            && self.alignment_point.agree(&other.alignment_point)
            && self.normal.agree(&other.normal)
            && self.height.agree(&other.height)
            && self.rotation.agree(&other.rotation)
            && self.width_factor.agree(&other.width_factor)
            && self.oblique_angle.agree(&other.oblique_angle)
            && self.text_style.agree(&other.text_style)
            && self.field_length == other.field_length
            && self.line_count == other.line_count
            && self.embedded_mtext.agree(&other.embedded_mtext)
    }

    proof fn agrees_with_itself(&self) {
        self.tag.agrees_with_itself();
        self.insertion_point.agrees_with_itself();
        self.alignment_point.agrees_with_itself();
        self.normal.agrees_with_itself();
        self.height.agrees_with_itself();
        self.rotation.agrees_with_itself();
        self.width_factor.agrees_with_itself();
        self.oblique_angle.agrees_with_itself();
        self.text_style.agrees_with_itself();
        self.embedded_mtext.agrees_with_itself();
    }
}

/// The template of an attribute in a block.
#[derive(Clone, Debug)]
pub struct AttributeDefinition {
    pub text: AttributeText,
}

/// An attribute of a block reference.
#[derive(Clone, Debug)]
pub struct AttributeEntity {
    pub text: AttributeText,
    pub value: String,
    pub attdef_handle: Handle,
}

impl AttributeEntity {
    /// The attribute, bound to a definition.
    pub fn bound_to(&self, definition: Handle) -> (result: Self)
        ensures
            result == (AttributeEntity { attdef_handle: definition, ..*self }),
    {
        AttributeEntity {
            text: self.text.copy(),
            value: self.value.clone(),
            attdef_handle: definition,
        }
    }
}

impl Agree for AttributeEntity {
    open spec fn agrees(self, other: Self) -> bool {
        &&& self.text.agrees(other.text)
        &&& self.value.agrees(other.value)
        &&& self.attdef_handle == other.attdef_handle
    }

    fn agree(&self, other: &Self) -> (result: bool) {
        self.text.agree(&other.text)
            && self.value.agree(&other.value)
            && self.attdef_handle == other.attdef_handle
    }

    proof fn agrees_with_itself(&self) {
        self.text.agrees_with_itself();
        self.value.agrees_with_itself();
    }
}

/// One family of lines of a hatch pattern.
#[derive(Clone, Debug)]
pub struct HatchPatternLine {
    pub angle: Scalar,
    pub base_point: Vector2,
    pub offset: Vector2,
    /// The length of `offset`, as the geometry engine rounded it.
    pub offset_length: Scalar,
    pub dash_lengths: Vec<Scalar>,
}

impl Agree for HatchPatternLine {
    open spec fn agrees(self, other: Self) -> bool {
        &&& self.angle.agrees(other.angle)
        &&& self.base_point.agrees(other.base_point)
        &&& self.offset.agrees(other.offset)
        &&& self.dash_lengths.agrees(other.dash_lengths)
    }

    fn agree(&self, other: &Self) -> (result: bool) {
        self.angle.agree(&other.angle)
            && self.base_point.agree(&other.base_point)
            && self.offset.agree(&other.offset)
            && self.dash_lengths.agree(&other.dash_lengths)
    }

    proof fn agrees_with_itself(&self) {
        self.angle.agrees_with_itself();
        self.base_point.agrees_with_itself();
        self.offset.agrees_with_itself();
        self.dash_lengths.agrees_with_itself();
    }
}

/// A hatch pattern.
#[derive(Clone, Debug)]
pub struct HatchPattern {
    pub name: String,
    pub description: String,
    pub lines: Vec<HatchPatternLine>,
}

impl Agree for HatchPattern {
    open spec fn agrees(self, other: Self) -> bool {
        &&& self.name.agrees(other.name)
        &&& self.description.agrees(other.description)
        &&& self.lines.agrees(other.lines)
    }

    fn agree(&self, other: &Self) -> (result: bool) {
        self.name.agree(&other.name)
            && self.description.agree(&other.description)
            && self.lines.agree(&other.lines)
    }

    proof fn agrees_with_itself(&self) {
        self.name.agrees_with_itself();
        self.description.agrees_with_itself();
        self.lines.agrees_with_itself();
    }
}

/// A straight piece of a hatch boundary.
#[derive(Clone, Debug)]
pub struct LineEdge {
    pub start: Vector2,
    pub end: Vector2,
    /// The distance of the ends, as the geometry engine rounded it.
    pub length: Scalar,
}

impl Agree for LineEdge {
    open spec fn agrees(self, other: Self) -> bool {
        &&& self.start.agrees(other.start)
        &&& self.end.agrees(other.end)
    }

    fn agree(&self, other: &Self) -> (result: bool) {
        self.start.agree(&other.start)
            && self.end.agree(&other.end)
    }

    proof fn agrees_with_itself(&self) {
        self.start.agrees_with_itself();
        self.end.agrees_with_itself();
    }
}

/// A circular piece of a hatch boundary.
#[derive(Clone, Debug)]
pub struct CircularArcEdge {
    pub center: Vector2,
    pub radius: Scalar,
    pub start_angle: Scalar,
    pub end_angle: Scalar,
    pub counter_clockwise: bool,
    /// Where it is at the start angle, as the geometry engine rounded it.
    pub at_start: Vector2,
    /// Where it is at the end angle.
    pub at_end: Vector2,
}

impl Agree for CircularArcEdge {
    open spec fn agrees(self, other: Self) -> bool {
        &&& self.center.agrees(other.center)
        &&& self.radius.agrees(other.radius)
        &&& self.start_angle.agrees(other.start_angle)
        &&& self.end_angle.agrees(other.end_angle)
        &&& self.counter_clockwise == other.counter_clockwise
    }

    fn agree(&self, other: &Self) -> (result: bool) {
        self.center.agree(&other.center)
            && self.radius.agree(&other.radius)
            && self.start_angle.agree(&other.start_angle)
            && self.end_angle.agree(&other.end_angle)
            && self.counter_clockwise == other.counter_clockwise
    }

    proof fn agrees_with_itself(&self) {
        self.center.agrees_with_itself();
        self.radius.agrees_with_itself();
        self.start_angle.agrees_with_itself();
        self.end_angle.agrees_with_itself();
    }
}

/// An elliptic piece of a hatch boundary.
#[derive(Clone, Debug)]
pub struct EllipticArcEdge {
    pub center: Vector2,
    pub major_axis_endpoint: Vector2,
    /// The length of the major axis, as the geometry engine rounded it.
    pub major_axis_length: Scalar,
    pub minor_axis_ratio: Scalar,
    pub start_angle: Scalar,
    pub end_angle: Scalar,
    pub counter_clockwise: bool,
    /// Where it is at the start angle, as the geometry engine rounded it.
    pub at_start: Vector2,
    /// Where it is at the end angle.
    pub at_end: Vector2,
}

impl Agree for EllipticArcEdge {
    open spec fn agrees(self, other: Self) -> bool {
        &&& self.center.agrees(other.center)
        &&& self.major_axis_endpoint.agrees(other.major_axis_endpoint)
        &&& self.minor_axis_ratio.agrees(other.minor_axis_ratio)
        &&& self.start_angle.agrees(other.start_angle)
        &&& self.end_angle.agrees(other.end_angle)
        &&& self.counter_clockwise == other.counter_clockwise
    }

    fn agree(&self, other: &Self) -> (result: bool) {
        self.center.agree(&other.center)
            && self.major_axis_endpoint.agree(&other.major_axis_endpoint)
            && self.minor_axis_ratio.agree(&other.minor_axis_ratio)
            && self.start_angle.agree(&other.start_angle)
            && self.end_angle.agree(&other.end_angle)
            && self.counter_clockwise == other.counter_clockwise
    }

    proof fn agrees_with_itself(&self) {
        self.center.agrees_with_itself();
        self.major_axis_endpoint.agrees_with_itself();
        self.minor_axis_ratio.agrees_with_itself();
        self.start_angle.agrees_with_itself();
        self.end_angle.agrees_with_itself();
    }
}

/// A polyline that bounds a hatch.
#[derive(Clone, Debug)]
pub struct PolylineEdge {
    pub vertices: Vec<Vector3>,
    pub is_closed: bool,
}

impl Agree for PolylineEdge {
    open spec fn agrees(self, other: Self) -> bool {
        &&& self.vertices.agrees(other.vertices)
        &&& self.is_closed == other.is_closed
    }

    fn agree(&self, other: &Self) -> (result: bool) {
        self.vertices.agree(&other.vertices)
            && self.is_closed == other.is_closed
    }

    proof fn agrees_with_itself(&self) {
        self.vertices.agrees_with_itself();
    }
}

/// A spline piece of a hatch boundary.
#[derive(Clone, Debug)]
pub struct SplineEdge {
    pub degree: i32,
    pub rational: bool,
    pub periodic: bool,
    pub knots: Vec<Scalar>,
    pub control_points: Vec<Vector3>,
    pub fit_points: Vec<Vector2>,
    pub start_tangent: Vector2,
    pub end_tangent: Vector2,
}

impl Agree for SplineEdge {
    open spec fn agrees(self, other: Self) -> bool {
        &&& self.degree == other.degree
        &&& self.rational == other.rational
        &&& self.periodic == other.periodic
        &&& self.knots.agrees(other.knots)
        &&& self.control_points.agrees(other.control_points)
        &&& self.fit_points.agrees(other.fit_points)
        &&& self.start_tangent.agrees(other.start_tangent)
        &&& self.end_tangent.agrees(other.end_tangent)
    }

    fn agree(&self, other: &Self) -> (result: bool) {
        self.degree == other.degree
            && self.rational == other.rational
            && self.periodic == other.periodic
            && self.knots.agree(&other.knots)
            && self.control_points.agree(&other.control_points)
            && self.fit_points.agree(&other.fit_points)
            && self.start_tangent.agree(&other.start_tangent)
            && self.end_tangent.agree(&other.end_tangent)
    }

    proof fn agrees_with_itself(&self) {
        self.knots.agrees_with_itself();
        self.control_points.agrees_with_itself();
        self.fit_points.agrees_with_itself();
        self.start_tangent.agrees_with_itself();
        self.end_tangent.agrees_with_itself();
    }
}

/// The shape of one piece of a hatch boundary.
#[derive(Clone, Debug)]
pub enum EdgeShape {
    Line(LineEdge),
    CircularArc(CircularArcEdge),
    EllipticArc(EllipticArcEdge),
    Polyline(PolylineEdge),
    Spline(SplineEdge),
}

impl Agree for EdgeShape {
    open spec fn agrees(self, other: Self) -> bool {
        match (self, other) {
            (EdgeShape::Line(a), EdgeShape::Line(b)) => a.agrees(b),
            (EdgeShape::CircularArc(a), EdgeShape::CircularArc(b)) => a.agrees(b),
            (EdgeShape::EllipticArc(a), EdgeShape::EllipticArc(b)) => a.agrees(b),
            (EdgeShape::Polyline(a), EdgeShape::Polyline(b)) => a.agrees(b),
            (EdgeShape::Spline(a), EdgeShape::Spline(b)) => a.agrees(b),
            _ => false,
        }
    }

    fn agree(&self, other: &Self) -> (result: bool) {
        match (self, other) {
            (EdgeShape::Line(a), EdgeShape::Line(b)) => a.agree(b),
            (EdgeShape::CircularArc(a), EdgeShape::CircularArc(b)) => a.agree(b),
            (EdgeShape::EllipticArc(a), EdgeShape::EllipticArc(b)) => a.agree(b),
            (EdgeShape::Polyline(a), EdgeShape::Polyline(b)) => a.agree(b),
            (EdgeShape::Spline(a), EdgeShape::Spline(b)) => a.agree(b),
            _ => false,
        }
    }

    proof fn agrees_with_itself(&self) {
        match self {
            EdgeShape::Line(a) => a.agrees_with_itself(),
            EdgeShape::CircularArc(a) => a.agrees_with_itself(),
            EdgeShape::EllipticArc(a) => a.agrees_with_itself(),
            EdgeShape::Polyline(a) => a.agrees_with_itself(),
            EdgeShape::Spline(a) => a.agrees_with_itself(),
        }
    }
}

/// A piece of a hatch boundary.
#[derive(Clone, Debug)]
pub struct BoundaryEdge {
    pub shape: EdgeShape,
    /// The distance from its end to the start of the next piece around the path,
    /// as the geometry engine rounded it.
    pub gap: Scalar,
}

impl Agree for BoundaryEdge {
    open spec fn agrees(self, other: Self) -> bool {
        &&& self.shape.agrees(other.shape)
    }

    fn agree(&self, other: &Self) -> (result: bool) {
        self.shape.agree(&other.shape)
    }

    proof fn agrees_with_itself(&self) {
        self.shape.agrees_with_itself();
    }
}

/// A closed path that bounds a hatch.
#[derive(Clone, Debug)]
pub struct BoundaryPath {
    /// Bit 5 marks an open path; the low nine bits are in use.
    pub flags: u32,
    pub edges: Vec<BoundaryEdge>,
    pub boundary_handles: Vec<Handle>,
}

impl Agree for BoundaryPath {
    open spec fn agrees(self, other: Self) -> bool {
        &&& self.flags == other.flags
        &&& self.edges.agrees(other.edges)
        &&& self.boundary_handles.agrees(other.boundary_handles)
    }

    fn agree(&self, other: &Self) -> (result: bool) {
        self.flags == other.flags
            && self.edges.agree(&other.edges)
            && self.boundary_handles.agree(&other.boundary_handles)
    }

    proof fn agrees_with_itself(&self) {
        self.edges.agrees_with_itself();
        self.boundary_handles.agrees_with_itself();
    }
}

/// A filled or patterned area.
#[derive(Clone, Debug)]
pub struct Hatch {
    pub normal: Vector3,
    pub elevation: Scalar,
    pub pattern: HatchPattern,
    pub is_solid: bool,
    pub is_associative: bool,
    pub pattern_angle: Scalar,
    pub pattern_scale: Scalar,
    pub pixel_size: Scalar,
    pub paths: Vec<BoundaryPath>,
    pub seed_points: Vec<Vector2>,
    pub gradient_color: Encoded,
    pub is_mpolygon: bool,
    pub mpolygon_hatch_color: Color,
    pub mpolygon_x_direction: Vector2,
    pub mpolygon_boundary_handle_count: u32,
}

/// A window into model space.
#[derive(Clone, Copy, PartialEq, Eq, Structural, Debug)]
pub struct Viewport {
    pub id: i16,
    pub custom_scale: Scalar,
}

/// A spline curve.
#[derive(Clone, Debug)]
pub struct Spline {
    pub rational: bool,
    pub weights: Arc<Vec<Scalar>>,
}

/// A vertex of a section line.
#[derive(Clone, Debug)]
pub struct SectionSymbolPoint {
    pub point: Vector3,
    pub bulge: Scalar,
    pub label: String,
    pub label_offset: Vector3,
    pub raw_flag_280: u8,
}

impl Agree for SectionSymbolPoint {
    open spec fn agrees(self, other: Self) -> bool {
        &&& self.point.agrees(other.point)
        &&& self.bulge.agrees(other.bulge)
        &&& self.label.agrees(other.label)
        &&& self.label_offset.agrees(other.label_offset)
        &&& self.raw_flag_280 == other.raw_flag_280
    }

    fn agree(&self, other: &Self) -> (result: bool) {
        self.point.agree(&other.point)
            && self.bulge.agree(&other.bulge)
            && self.label.agree(&other.label)
            && self.label_offset.agree(&other.label_offset)
            && self.raw_flag_280 == other.raw_flag_280
    }

    proof fn agrees_with_itself(&self) {
        self.point.agrees_with_itself();
        self.bulge.agrees_with_itself();
        self.label.agrees_with_itself();
        self.label_offset.agrees_with_itself();
    }
}

/// The symbol of a section line.
#[derive(Clone, Debug)]
pub struct SectionSymbol {
    pub points: Arc<Vec<SectionSymbolPoint>>,
    pub raw_point_count_90: i32,
    pub raw_point_record_count: i32,
    pub end_a: Vector2,
    pub end_b: Vector2,
    pub tick_a: Scalar,
    pub tick_b: Scalar,
    pub label: String,
}

/// How much of an image shows.
#[derive(Clone, Debug)]
pub enum Clip {
    /// All of it, whatever its size.
    WholeImage,
    /// The part within an encoded boundary.
    Boundary(Arc<Vec<u8>>),
}

/// An image in the drawing.
#[derive(Clone, Debug)]
pub struct RasterImage {
    pub file_path: String,
    pub definition_handle: Option<Handle>,
    /// The size in pixels.
    pub size: Vector2,
    pub clip: Clip,
}

/// A line or a paragraph of text.
#[derive(Clone, Debug)]
pub struct StyledText {
    /// The text style.
    pub style_name: String,
}

/// The kind of a surface.
#[derive(Clone, Copy, PartialEq, Eq, Structural, Debug)]
pub enum SurfaceKind {
    Generic,
    Plane,
    Extruded,
    Lofted,
    Revolved,
    Swept,
    Nurb,
}

/// A block reference.
#[derive(Clone, Debug)]
pub struct Insert {
    pub block_name: String,
    pub attributes: Arc<Vec<AttributeRecord>>,
    pub view_rep_handle: Option<Handle>,
    pub seqend_handle: Option<Handle>,
    pub insert_point: Vector3,
    pub normal: Vector3,
    pub x_scale: Scalar,
    pub y_scale: Scalar,
    pub z_scale: Scalar,
    pub rotation: Scalar,
    pub column_spacing: Scalar,
    pub row_spacing: Scalar,
    pub column_count: u16,
    pub row_count: u16,
}
/// The kind of an entity, with the fields of the kind that the host reads.
#[derive(Clone, Debug)]
pub enum EntityData {
    Point(Point),
    Line(Line),
    Circle(Circle),
    Arc(ArcSegment),
    Solid(Solid),
    Face3D(Face3D),
    Ray(Ray),
    XLine(XLine),
    Viewport(Viewport),
    Surface(SurfaceKind),
    Insert(Arc<Insert>),
    Tolerance(Arc<Tolerance>),
    Shape(Arc<Shape>),
    Leader(Arc<Leader>),
    MLine(Arc<MLine>),
    Dimension(Arc<Dimension>),
    MultiLeader(Arc<MultiLeader>),
    Table(Arc<Table>),
    AttributeDefinition(Arc<AttributeDefinition>),
    AttributeEntity(Arc<AttributeEntity>),
    Hatch(Arc<Hatch>),
    Spline(Arc<Spline>),
    SectionSymbol(Arc<SectionSymbol>),
    RasterImage(Arc<RasterImage>),
    Text(Arc<StyledText>),
    MText(Arc<StyledText>),
    Ellipse,
    Polyline,
    Polyline2D,
    Polyline3D,
    LwPolyline,
    Helix,
    Block,
    BlockEnd,
    Mesh,
    Solid3D,
    Region,
    Body,
    PolyfaceMesh,
    Wipeout,
    Underlay,
    Seqend,
    Ole2Frame,
    PolygonMesh,
    Light,
    ViewBorder,
    Extended,
    Unknown,
}

/// The kind of an entity alone.
#[derive(Clone, Copy, PartialEq, Eq, Structural, Debug)]
pub enum Kind {
    Point,
    Line,
    Circle,
    Arc,
    Solid,
    Face3D,
    Ray,
    XLine,
    Viewport,
    Surface,
    Insert,
    Tolerance,
    Shape,
    Leader,
    MLine,
    Dimension,
    MultiLeader,
    Table,
    AttributeDefinition,
    AttributeEntity,
    Hatch,
    Spline,
    SectionSymbol,
    RasterImage,
    Text,
    MText,
    Ellipse,
    Polyline,
    Polyline2D,
    Polyline3D,
    LwPolyline,
    Helix,
    Block,
    BlockEnd,
    Mesh,
    Solid3D,
    Region,
    Body,
    PolyfaceMesh,
    Wipeout,
    Underlay,
    Seqend,
    Ole2Frame,
    PolygonMesh,
    Light,
    ViewBorder,
    Extended,
    Unknown,
}

impl EntityData {
    pub open spec fn kind(self) -> Kind {
        match self {
            EntityData::Point(_) => Kind::Point,
            EntityData::Line(_) => Kind::Line,
            EntityData::Circle(_) => Kind::Circle,
            EntityData::Arc(_) => Kind::Arc,
            EntityData::Solid(_) => Kind::Solid,
            EntityData::Face3D(_) => Kind::Face3D,
            EntityData::Ray(_) => Kind::Ray,
            EntityData::XLine(_) => Kind::XLine,
            EntityData::Viewport(_) => Kind::Viewport,
            EntityData::Surface(_) => Kind::Surface,
            EntityData::Insert(_) => Kind::Insert,
            EntityData::Tolerance(_) => Kind::Tolerance,
            EntityData::Shape(_) => Kind::Shape,
            EntityData::Leader(_) => Kind::Leader,
            EntityData::MLine(_) => Kind::MLine,
            EntityData::Dimension(_) => Kind::Dimension,
            EntityData::MultiLeader(_) => Kind::MultiLeader,
            EntityData::Table(_) => Kind::Table,
            EntityData::AttributeDefinition(_) => Kind::AttributeDefinition,
            EntityData::AttributeEntity(_) => Kind::AttributeEntity,
            EntityData::Hatch(_) => Kind::Hatch,
            EntityData::Spline(_) => Kind::Spline,
            EntityData::SectionSymbol(_) => Kind::SectionSymbol,
            EntityData::RasterImage(_) => Kind::RasterImage,
            EntityData::Text(_) => Kind::Text,
            EntityData::MText(_) => Kind::MText,
            EntityData::Ellipse => Kind::Ellipse,
            EntityData::Polyline => Kind::Polyline,
            EntityData::Polyline2D => Kind::Polyline2D,
            EntityData::Polyline3D => Kind::Polyline3D,
            EntityData::LwPolyline => Kind::LwPolyline,
            EntityData::Helix => Kind::Helix,
            EntityData::Block => Kind::Block,
            EntityData::BlockEnd => Kind::BlockEnd,
            EntityData::Mesh => Kind::Mesh,
            EntityData::Solid3D => Kind::Solid3D,
            EntityData::Region => Kind::Region,
            EntityData::Body => Kind::Body,
            EntityData::PolyfaceMesh => Kind::PolyfaceMesh,
            EntityData::Wipeout => Kind::Wipeout,
            EntityData::Underlay => Kind::Underlay,
            EntityData::Seqend => Kind::Seqend,
            EntityData::Ole2Frame => Kind::Ole2Frame,
            EntityData::PolygonMesh => Kind::PolygonMesh,
            EntityData::Light => Kind::Light,
            EntityData::ViewBorder => Kind::ViewBorder,
            EntityData::Extended => Kind::Extended,
            EntityData::Unknown => Kind::Unknown,
        }
    }

    pub fn kind_of(&self) -> (result: Kind)
        ensures
            result == self.kind(),
    {
        match self {
            EntityData::Point(_) => Kind::Point,
            EntityData::Line(_) => Kind::Line,
            EntityData::Circle(_) => Kind::Circle,
            EntityData::Arc(_) => Kind::Arc,
            EntityData::Solid(_) => Kind::Solid,
            EntityData::Face3D(_) => Kind::Face3D,
            EntityData::Ray(_) => Kind::Ray,
            EntityData::XLine(_) => Kind::XLine,
            EntityData::Viewport(_) => Kind::Viewport,
            EntityData::Surface(_) => Kind::Surface,
            EntityData::Insert(_) => Kind::Insert,
            EntityData::Tolerance(_) => Kind::Tolerance,
            EntityData::Shape(_) => Kind::Shape,
            EntityData::Leader(_) => Kind::Leader,
            EntityData::MLine(_) => Kind::MLine,
            EntityData::Dimension(_) => Kind::Dimension,
            EntityData::MultiLeader(_) => Kind::MultiLeader,
            EntityData::Table(_) => Kind::Table,
            EntityData::AttributeDefinition(_) => Kind::AttributeDefinition,
            EntityData::AttributeEntity(_) => Kind::AttributeEntity,
            EntityData::Hatch(_) => Kind::Hatch,
            EntityData::Spline(_) => Kind::Spline,
            EntityData::SectionSymbol(_) => Kind::SectionSymbol,
            EntityData::RasterImage(_) => Kind::RasterImage,
            EntityData::Text(_) => Kind::Text,
            EntityData::MText(_) => Kind::MText,
            EntityData::Ellipse => Kind::Ellipse,
            EntityData::Polyline => Kind::Polyline,
            EntityData::Polyline2D => Kind::Polyline2D,
            EntityData::Polyline3D => Kind::Polyline3D,
            EntityData::LwPolyline => Kind::LwPolyline,
            EntityData::Helix => Kind::Helix,
            EntityData::Block => Kind::Block,
            EntityData::BlockEnd => Kind::BlockEnd,
            EntityData::Mesh => Kind::Mesh,
            EntityData::Solid3D => Kind::Solid3D,
            EntityData::Region => Kind::Region,
            EntityData::Body => Kind::Body,
            EntityData::PolyfaceMesh => Kind::PolyfaceMesh,
            EntityData::Wipeout => Kind::Wipeout,
            EntityData::Underlay => Kind::Underlay,
            EntityData::Seqend => Kind::Seqend,
            EntityData::Ole2Frame => Kind::Ole2Frame,
            EntityData::PolygonMesh => Kind::PolygonMesh,
            EntityData::Light => Kind::Light,
            EntityData::ViewBorder => Kind::ViewBorder,
            EntityData::Extended => Kind::Extended,
            EntityData::Unknown => Kind::Unknown,
        }
    }

    pub fn copy(&self) -> (result: Self)
        ensures
            result == *self,
    {
        match self {
            EntityData::Point(value) => EntityData::Point(*value),
            EntityData::Line(value) => EntityData::Line(*value),
            EntityData::Circle(value) => EntityData::Circle(*value),
            EntityData::Arc(value) => EntityData::Arc(*value),
            EntityData::Solid(value) => EntityData::Solid(*value),
            EntityData::Face3D(value) => EntityData::Face3D(*value),
            EntityData::Ray(value) => EntityData::Ray(*value),
            EntityData::XLine(value) => EntityData::XLine(*value),
            EntityData::Viewport(value) => EntityData::Viewport(*value),
            EntityData::Surface(value) => EntityData::Surface(*value),
            EntityData::Insert(value) => EntityData::Insert(share(value)),
            EntityData::Tolerance(value) => EntityData::Tolerance(share(value)),
            EntityData::Shape(value) => EntityData::Shape(share(value)),
            EntityData::Leader(value) => EntityData::Leader(share(value)),
            EntityData::MLine(value) => EntityData::MLine(share(value)),
            EntityData::Dimension(value) => EntityData::Dimension(share(value)),
            EntityData::MultiLeader(value) => EntityData::MultiLeader(share(value)),
            EntityData::Table(value) => EntityData::Table(share(value)),
            EntityData::AttributeDefinition(value) => EntityData::AttributeDefinition(share(value)),
            EntityData::AttributeEntity(value) => EntityData::AttributeEntity(share(value)),
            EntityData::Hatch(value) => EntityData::Hatch(share(value)),
            EntityData::Spline(value) => EntityData::Spline(share(value)),
            EntityData::SectionSymbol(value) => EntityData::SectionSymbol(share(value)),
            EntityData::RasterImage(value) => EntityData::RasterImage(share(value)),
            EntityData::Text(value) => EntityData::Text(share(value)),
            EntityData::MText(value) => EntityData::MText(share(value)),
            EntityData::Ellipse => EntityData::Ellipse,
            EntityData::Polyline => EntityData::Polyline,
            EntityData::Polyline2D => EntityData::Polyline2D,
            EntityData::Polyline3D => EntityData::Polyline3D,
            EntityData::LwPolyline => EntityData::LwPolyline,
            EntityData::Helix => EntityData::Helix,
            EntityData::Block => EntityData::Block,
            EntityData::BlockEnd => EntityData::BlockEnd,
            EntityData::Mesh => EntityData::Mesh,
            EntityData::Solid3D => EntityData::Solid3D,
            EntityData::Region => EntityData::Region,
            EntityData::Body => EntityData::Body,
            EntityData::PolyfaceMesh => EntityData::PolyfaceMesh,
            EntityData::Wipeout => EntityData::Wipeout,
            EntityData::Underlay => EntityData::Underlay,
            EntityData::Seqend => EntityData::Seqend,
            EntityData::Ole2Frame => EntityData::Ole2Frame,
            EntityData::PolygonMesh => EntityData::PolygonMesh,
            EntityData::Light => EntityData::Light,
            EntityData::ViewBorder => EntityData::ViewBorder,
            EntityData::Extended => EntityData::Extended,
            EntityData::Unknown => EntityData::Unknown,
        }
    }
}

/// An entity.
#[derive(Clone, Debug)]
pub struct EntityType {
    pub common: EntityCommon,
    pub data: EntityData,
    /// The fields of the entity that the host hands on unread.
    pub record: Arc<Encoded>,
}

impl EntityType {
    pub fn copy(&self) -> (result: Self)
        ensures
            result == *self,
    {
        EntityType {
            common: self.common.copy(),
            data: self.data.copy(),
            record: share(&self.record),
        }
    }
}

impl AttributeText {
    pub fn copy(&self) -> (result: Self)
        ensures
            result == *self,
    {
        AttributeText {
            tag: self.tag.clone(),
            insertion_point: self.insertion_point,
            alignment_point: self.alignment_point,
            normal: self.normal,
            height: self.height,
            rotation: self.rotation,
            width_factor: self.width_factor,
            oblique_angle: self.oblique_angle,
            text_style: self.text_style.clone(),
            field_length: self.field_length,
            line_count: self.line_count,
            embedded_mtext: match &self.embedded_mtext {
                Some(bytes) => Some(share(bytes)),
                None => None,
            },
        }
    }
}

} // verus!
