//! Solids, regions, surfaces and embedded pictures: what the geometry kernel
//! makes, and what becomes of it in the drawing.

use crate::agree::share;
use crate::document::{entity_with, CadDocument, DocumentView};
use crate::entities::{
    Encoded, EntityCommon, EntityData, EntityType, ExtendedData, Kind, SurfaceKind,
};
use crate::geometry::{Handle, Vector3};
use crate::normalize::Derived;
use crate::scalar::{Scalar, LOOSE_BITS, TIGHT_BITS};
use crate::scene::{erased, locked};
use crate::scripting::{added, updated, Scripted};
use crate::session::{published, recorded, with_scene, HostSession};
use crate::studio::{redone, tab_changes, undo_and_redo_are_inverse, undone, StudioView};
use crate::text::{
    blank, check, fault, first, is_blank, join, join3, quote, quoted, unless, Fault,
};
use std::sync::Arc;
use vstd::prelude::*;
use vstd::string::*;

verus! {

/// A basic solid.
pub enum SolidPrimitive {
    Box { center: Vector3, length: Scalar, width: Scalar, height: Scalar },
    Wedge { origin: Vector3, length: Scalar, width: Scalar, height: Scalar },
    Cylinder { center: Vector3, radius: Scalar, height: Scalar },
    Sphere { center: Vector3, radius: Scalar },
    Torus { center: Vector3, major: Scalar, minor: Scalar },
    Pyramid { center: Vector3, radius: Scalar, height: Scalar, sides: u32 },
}

/// How two solids are combined.
#[derive(Clone, Copy, PartialEq, Eq, Structural, Debug)]
pub enum SolidBoolean {
    Union,
    Subtract,
    Intersect,
}

/// The products of the columns of a matrix with one another, as the geometry
/// engine rounded them.
#[derive(Clone, Copy, PartialEq, Eq, Structural, Debug)]
pub struct ColumnProducts {
    pub xx: Scalar,
    pub yy: Scalar,
    pub zz: Scalar,
    pub xy: Scalar,
    pub xz: Scalar,
    pub yz: Scalar,
}

/// Something to make or to move.
pub enum SolidOperation {
    Create { primitive: SolidPrimitive, layer: Option<String> },
    RegionFromProfile { source: Handle, layer: Option<String>, delete_source: bool },
    SurfaceFromProfile { source: Handle, layer: Option<String>, delete_source: bool },
    Extrude { source: Handle, direction: Vector3, layer: Option<String>, delete_source: bool },
    EmbedPicture { path: String, origin: Vector3, width: Scalar, layer: Option<String> },
    Boolean {
        first: Handle,
        second: Handle,
        operation: SolidBoolean,
        layer: Option<String>,
        keep_operands: bool,
    },
    /// The matrix comes column by column.
    Transform { handle: Handle, matrix: [Scalar; 16], products: ColumnProducts },
}

/// What the kernel made of a request.
pub enum Outcome {
    /// It could not make it.
    Refused,
    /// It made it, but could not write it without loss.
    Lossy,
    /// It made it: the encoded fields of the entity.
    Built(Arc<Encoded>),
}

/// Why the kernel could not combine two solids.
#[derive(Clone, Copy, PartialEq, Eq, Structural, Debug)]
pub enum Snag {
    Coincident,
    CutRefused,
    NoClosedForm,
}

/// What the kernel answers.
pub enum KernelReply {
    Body(Outcome),
    /// The source is no planar profile.
    NoProfile,
    /// The source is a planar profile.
    Profile { closed: bool, outcome: Outcome },
    /// A picture was read, or why it was not.
    Picture(Result<Arc<Encoded>, String>),
    /// The first operand cannot be read without loss.
    FirstUnreadable,
    /// The second operand cannot be read without loss.
    SecondUnreadable,
    Snagged(Snag),
}

impl KernelReply {
    /// The kernel can answer an operation this way.
    pub open spec fn answers(self, operation: SolidOperation) -> bool {
        match operation {
            SolidOperation::Create { .. } => self is Body,
            SolidOperation::RegionFromProfile { .. }
            | SolidOperation::SurfaceFromProfile { .. }
            | SolidOperation::Extrude { .. } => self is NoProfile || self is Profile,
            SolidOperation::EmbedPicture { .. } => self is Picture,
            SolidOperation::Boolean { .. } => self is FirstUnreadable || self is SecondUnreadable
                || self is Snagged || (self matches KernelReply::Body(outcome) && !(
            outcome is Refused)),
            SolidOperation::Transform { .. } => self is FirstUnreadable || self is Body,
        }
    }

    /// Whether the kernel can answer an operation this way.
    pub fn is_answer_to(&self, operation: &SolidOperation) -> (result: bool)
        ensures
            result == self.answers(*operation),
    {
        match operation {
            SolidOperation::Create { .. } => matches!(self, KernelReply::Body(_)),
            SolidOperation::RegionFromProfile { .. }
            | SolidOperation::SurfaceFromProfile { .. }
            | SolidOperation::Extrude { .. } => matches!(
                self,
                KernelReply::NoProfile | KernelReply::Profile { .. }
            ),
            SolidOperation::EmbedPicture { .. } => matches!(self, KernelReply::Picture(_)),
            SolidOperation::Boolean { .. } => match self {
                KernelReply::FirstUnreadable
                | KernelReply::SecondUnreadable
                | KernelReply::Snagged(_) => true,
                KernelReply::Body(outcome) => !matches!(outcome, Outcome::Refused),
                _ => false,
            },
            SolidOperation::Transform { .. } => matches!(
                self,
                KernelReply::FirstUnreadable | KernelReply::Body(_)
            ),
        }
    }
}

/// The coordinates must be finite.
pub open spec fn place_fault(name: Seq<char>, value: Vector3) -> Fault {
    unless(value.finite(), name + " must be finite"@)
}

fn check_place(name: &str, value: &Vector3) -> (result: Result<(), String>)
    ensures
        fault(result) == place_fault(name@, *value),
{
    check(value.is_finite(), &join(name, " must be finite"))
}

/// The size must be finite and above zero.
pub open spec fn extent_fault(name: Seq<char>, value: Scalar) -> Fault {
    crate::geometry::size_fault(name, value)
}

/// Why a basic solid cannot be.
pub open spec fn primitive_fault(primitive: SolidPrimitive) -> Fault {
    match primitive {
        SolidPrimitive::Box { center, length, width, height } => first(
            place_fault("box center"@, center),
            first(
                extent_fault("box length"@, length),
                first(extent_fault("box width"@, width), extent_fault("box height"@, height)),
            ),
        ),
        SolidPrimitive::Wedge { origin, length, width, height } => first(
            place_fault("wedge origin"@, origin),
            first(
                extent_fault("wedge length"@, length),
                first(extent_fault("wedge width"@, width), extent_fault("wedge height"@, height)),
            ),
        ),
        SolidPrimitive::Cylinder { center, radius, height } => first(
            place_fault("cylinder center"@, center),
            first(
                extent_fault("cylinder radius"@, radius),
                extent_fault("cylinder height"@, height),
            ),
        ),
        SolidPrimitive::Sphere { center, radius } => first(
            place_fault("sphere center"@, center),
            extent_fault("sphere radius"@, radius),
        ),
        SolidPrimitive::Torus { center, major, minor } => first(
            place_fault("torus center"@, center),
            first(
                extent_fault("torus major radius"@, major),
                first(
                    extent_fault("torus minor radius"@, minor),
                    unless(
                        minor.below(major),
                        "torus minor radius must be smaller than the major radius"@,
                    ),
                ),
            ),
        ),
        SolidPrimitive::Pyramid { center, radius, height, sides } => first(
            place_fault("pyramid center"@, center),
            first(
                extent_fault("pyramid radius"@, radius),
                first(
                    extent_fault("pyramid height"@, height),
                    unless(
                        3 <= sides <= 1024,
                        "pyramid sides must be between 3 and 1024"@,
                    ),
                ),
            ),
        ),
    }
}

fn check_primitive(primitive: &SolidPrimitive) -> (result: Result<(), String>)
    ensures
        fault(result) == primitive_fault(*primitive),
{
    match primitive {
        SolidPrimitive::Box { center, length, width, height } => {
            check_place("box center", center)?;
            crate::geometry::positive_size("box length", *length)?;
            crate::geometry::positive_size("box width", *width)?;
            crate::geometry::positive_size("box height", *height)
        },
        SolidPrimitive::Wedge { origin, length, width, height } => {
            check_place("wedge origin", origin)?;
            crate::geometry::positive_size("wedge length", *length)?;
            crate::geometry::positive_size("wedge width", *width)?;
            crate::geometry::positive_size("wedge height", *height)
        },
        SolidPrimitive::Cylinder { center, radius, height } => {
            check_place("cylinder center", center)?;
            crate::geometry::positive_size("cylinder radius", *radius)?;
            crate::geometry::positive_size("cylinder height", *height)
        },
        SolidPrimitive::Sphere { center, radius } => {
            check_place("sphere center", center)?;
            crate::geometry::positive_size("sphere radius", *radius)
        },
        SolidPrimitive::Torus { center, major, minor } => {
            check_place("torus center", center)?;
            crate::geometry::positive_size("torus major radius", *major)?;
            crate::geometry::positive_size("torus minor radius", *minor)?;
            check(
                minor.lt(*major),
                "torus minor radius must be smaller than the major radius",
            )
        },
        SolidPrimitive::Pyramid { center, radius, height, sides } => {
            check_place("pyramid center", center)?;
            crate::geometry::positive_size("pyramid radius", *radius)?;
            crate::geometry::positive_size("pyramid height", *height)?;
            check(
                3 <= *sides && *sides <= 1024,
                "pyramid sides must be between 3 and 1024",
            )
        },
    }
}

/// Why an operation cannot go onto the layer that it asks for.
pub open spec fn asked_layer_fault(layer: Option<String>) -> Fault {
    unless(layer is None || !blank(layer->Some_0@), "layer name is empty"@)
}

fn check_asked_layer(layer: &Option<String>) -> (result: Result<(), String>)
    ensures
        fault(result) == asked_layer_fault(*layer),
{
    match layer {
        Some(name) => check(!is_blank(name), "layer name is empty"),
        None => Ok(()),
    }
}

/// Why there is no entity with a handle.
pub open spec fn presence_fault(doc: DocumentView, handle: Handle) -> Fault {
    unless(
        doc.entity(handle) is Some,
        "entity "@ + handle.shown() + " does not exist"@,
    )
}

/// Why an entity cannot be changed: its layer is locked.
pub open spec fn lock_fault(doc: DocumentView, handle: Handle) -> Fault {
    unless(!locked(doc, handle), "entity "@ + handle.shown() + " is on a locked layer"@)
}

fn check_lock(doc: &CadDocument, handle: Handle) -> (result: Result<(), String>)
    ensures
        fault(result) == lock_fault(doc@, handle),
{
    check(
        !doc.is_layer_locked(handle),
        &join3("entity ", &handle.show(), " is on a locked layer"),
    )
}

fn get_present(doc: &CadDocument, handle: Handle) -> (result: Result<&EntityType, String>)
    ensures
        fault(result) == presence_fault(doc@, handle),
        result matches Ok(entity) ==> doc@.entity(handle) == Some(*entity),
{
    match doc.get_entity(handle) {
        Some(entity) => Ok(entity),
        None => Err(join3("entity ", &handle.show(), " does not exist")),
    }
}

/// The kind of the entity with a handle.
pub open spec fn kind_at(doc: DocumentView, handle: Handle) -> Option<Kind> {
    match doc.entity(handle) {
        Some(entity) => Some(entity.data.kind()),
        None => None,
    }
}

/// Why an entity cannot be the source of a profile, before the kernel looks at
/// it.
pub open spec fn source_fault(
    doc: DocumentView,
    source: Handle,
    layer: Option<String>,
    delete_source: bool,
) -> Fault {
    first(
        asked_layer_fault(layer),
        first(
            presence_fault(doc, source),
            first(
                if delete_source {
                    lock_fault(doc, source)
                } else {
                    None
                },
                unless(
                    !(kind_at(doc, source) == Some(Kind::Solid3D) || kind_at(doc, source) == Some(
                        Kind::Body,
                    ) || kind_at(doc, source) == Some(Kind::Surface)),
                    "the source must be a curve profile, not an existing solid or surface"@,
                ),
            ),
        ),
    )
}

fn check_source(
    doc: &CadDocument,
    source: Handle,
    layer: &Option<String>,
    delete_source: bool,
) -> (result: Result<(), String>)
    ensures
        fault(result) == source_fault(doc@, source, *layer, delete_source),
{
    check_asked_layer(layer)?;
    let entity = get_present(doc, source)?;
    if delete_source {
        check_lock(doc, source)?;
    }
    let kind = entity.data.kind_of();
    check(
        !(kind == Kind::Solid3D || kind == Kind::Body || kind == Kind::Surface),
        "the source must be a curve profile, not an existing solid or surface",
    )
}

/// Why a direction cannot be extruded in.
pub open spec fn direction_fault(direction: Vector3) -> Fault {
    first(
        unless(direction.finite(), "extrusion direction must be finite"@),
        unless(
            !direction.length.at_most(Scalar { bits: TIGHT_BITS }),
            "extrusion direction must be nonzero"@,
        ),
    )
}

/// Why two entities cannot be combined, before the kernel looks at them.
pub open spec fn operands_fault(
    doc: DocumentView,
    first_operand: Handle,
    second_operand: Handle,
    layer: Option<String>,
    keep_operands: bool,
) -> Fault {
    first(
        unless(
            first_operand != second_operand,
            "a solid cannot be combined with itself"@,
        ),
        first(
            asked_layer_fault(layer),
            first(
                operand_fault(doc, first_operand, "the first operand must be a Solid3D"@),
                first(
                    operand_fault(doc, second_operand, "the second operand must be a Solid3D"@),
                    if keep_operands {
                        None
                    } else {
                        first(lock_fault(doc, first_operand), lock_fault(doc, second_operand))
                    },
                ),
            ),
        ),
    )
}

/// Why an entity is no solid to combine.
pub open spec fn operand_fault(doc: DocumentView, handle: Handle, message: Seq<char>) -> Fault {
    first(
        presence_fault(doc, handle),
        unless(kind_at(doc, handle) == Some(Kind::Solid3D), message),
    )
}

fn check_operand(doc: &CadDocument, handle: Handle, message: &str) -> (result: Result<(), String>)
    ensures
        fault(result) == operand_fault(doc@, handle, message@),
{
    let entity = get_present(doc, handle)?;
    check(entity.data.kind_of() == Kind::Solid3D, message)
}

/// All entries of a matrix are finite.
pub open spec fn finite_matrix(matrix: Seq<Scalar>) -> bool {
    forall|i: int| 0 <= i < matrix.len() ==> (#[trigger] matrix[i]).finite()
}

/// Less than a tolerance away from zero.
pub open spec fn slight(value: Scalar, tolerance: u64) -> bool {
    value.absolute().below(Scalar { bits: tolerance })
}

fn is_slight(value: Scalar, tolerance: u64) -> (result: bool)
    ensures
        result == slight(value, tolerance),
{
    value.abs().lt(Scalar { bits: tolerance })
}

/// The matrix moves, turns or mirrors, and no more.
pub open spec fn rigid(matrix: Seq<Scalar>, products: ColumnProducts) -> bool {
    &&& products.xx.well_around_one(Scalar { bits: LOOSE_BITS })
    &&& products.yy.well_around_one(Scalar { bits: LOOSE_BITS })
    &&& products.zz.well_around_one(Scalar { bits: LOOSE_BITS })
    &&& slight(products.xy, LOOSE_BITS)
    &&& slight(products.xz, LOOSE_BITS)
    &&& slight(products.yz, LOOSE_BITS)
    &&& slight(matrix[3], TIGHT_BITS)
    &&& slight(matrix[7], TIGHT_BITS)
    &&& slight(matrix[11], TIGHT_BITS)
    &&& matrix[15].well_around_one(Scalar { bits: TIGHT_BITS })
}

fn is_finite_matrix(matrix: &[Scalar; 16]) -> (result: bool)
    ensures
        result == finite_matrix(matrix@),
{
    let mut i: usize = 0;
    while i < 16
        invariant
            i <= 16,
            forall|j: int| 0 <= j < i ==> (#[trigger] matrix@[j]).finite(),
        decreases 16 - i,
    {
        if !matrix[i].is_finite() {
            assert(!matrix@[i as int].finite());
            return false;
        }
        i = i + 1;
    }
    true
}

fn is_rigid(matrix: &[Scalar; 16], products: &ColumnProducts) -> (result: bool)
    ensures
        result == rigid(matrix@, *products),
{
    products.xx.is_unit() && products.yy.is_unit() && products.zz.is_unit() && is_slight(
        products.xy,
        LOOSE_BITS,
    ) && is_slight(products.xz, LOOSE_BITS) && is_slight(products.yz, LOOSE_BITS) && is_slight(
        matrix[3],
        TIGHT_BITS,
    ) && is_slight(matrix[7], TIGHT_BITS) && is_slight(matrix[11], TIGHT_BITS)
        && matrix[15].is_one()
}

/// Why an operation cannot be put to the kernel.
pub open spec fn request_fault(doc: DocumentView, operation: SolidOperation) -> Fault {
    match operation {
        SolidOperation::Create { primitive, .. } => primitive_fault(primitive),
        SolidOperation::RegionFromProfile { source, layer, delete_source } => source_fault(
            doc,
            source,
            layer,
            delete_source,
        ),
        SolidOperation::SurfaceFromProfile { source, layer, delete_source } => source_fault(
            doc,
            source,
            layer,
            delete_source,
        ),
        SolidOperation::Extrude { source, direction, layer, delete_source } => first(
            direction_fault(direction),
            source_fault(doc, source, layer, delete_source),
        ),
        SolidOperation::EmbedPicture { path: _, origin, width, layer } => first(
            place_fault("picture origin"@, origin),
            first(extent_fault("picture width"@, width), asked_layer_fault(layer)),
        ),
        SolidOperation::Boolean {
            first: first_operand,
            second,
            operation: _,
            layer,
            keep_operands,
        } => operands_fault(doc, first_operand, second, layer, keep_operands),
        SolidOperation::Transform { handle, matrix, products } => first(
            unless(finite_matrix(matrix@), "transform matrix must be finite"@),
            first(
                unless(
                    rigid(matrix@, products),
                    "only rigid moves and mirrors are supported; scaling and shear are not"@,
                ),
                first(
                    presence_fault(doc, handle),
                    first(
                        lock_fault(doc, handle),
                        unless(
                            kind_at(doc, handle) == Some(Kind::Solid3D) || kind_at(doc, handle)
                                == Some(Kind::Body) || kind_at(doc, handle) == Some(Kind::Region)
                                || kind_at(doc, handle) == Some(Kind::Surface),
                            "transform applies to Solid3D, Body, Region and Surface entities"@,
                        ),
                    ),
                ),
            ),
        ),
    }
}

/// Checks that an operation can be put to the kernel.
pub fn check_request(doc: &CadDocument, operation: &SolidOperation) -> (result: Result<(), String>)
    ensures
        fault(result) == request_fault(doc@, *operation),
{
    match operation {
        SolidOperation::Create { primitive, .. } => check_primitive(primitive),
        SolidOperation::RegionFromProfile { source, layer, delete_source } => check_source(
            doc,
            *source,
            layer,
            *delete_source,
        ),
        SolidOperation::SurfaceFromProfile { source, layer, delete_source } => check_source(
            doc,
            *source,
            layer,
            *delete_source,
        ),
        SolidOperation::Extrude { source, direction, layer, delete_source } => {
            check(direction.is_finite(), "extrusion direction must be finite")?;
            check(
                !direction.length.le(Scalar { bits: TIGHT_BITS }),
                "extrusion direction must be nonzero",
            )?;
            check_source(doc, *source, layer, *delete_source)
        },
        SolidOperation::EmbedPicture { path: _, origin, width, layer } => {
            check_place("picture origin", origin)?;
            crate::geometry::positive_size("picture width", *width)?;
            check_asked_layer(layer)
        },
        SolidOperation::Boolean {
            first: first_operand,
            second,
            operation: _,
            layer,
            keep_operands,
        } => {
            check(
                *first_operand != *second,
                "a solid cannot be combined with itself",
            )?;
            check_asked_layer(layer)?;
            check_operand(doc, *first_operand, "the first operand must be a Solid3D")?;
            check_operand(doc, *second, "the second operand must be a Solid3D")?;
            if !*keep_operands {
                check_lock(doc, *first_operand)?;
                check_lock(doc, *second)?;
            }
            Ok(())
        },
        SolidOperation::Transform { handle, matrix, products } => {
            check(is_finite_matrix(matrix), "transform matrix must be finite")?;
            check(
                is_rigid(matrix, products),
                "only rigid moves and mirrors are supported; scaling and shear are not",
            )?;
            let entity = get_present(doc, *handle)?;
            check_lock(doc, *handle)?;
            let kind = entity.data.kind_of();
            check(
                kind == Kind::Solid3D || kind == Kind::Body || kind == Kind::Region || kind
                    == Kind::Surface,
                "transform applies to Solid3D, Body, Region and Surface entities",
            )
        },
    }
}

/// Why the kernel's work cannot be used.
pub open spec fn outcome_fault(outcome: Outcome, refused: Seq<char>, lossy: Seq<char>) -> Fault {
    match outcome {
        Outcome::Refused => Some(refused),
        Outcome::Lossy => Some(lossy),
        Outcome::Built(_) => None,
    }
}

fn check_outcome(outcome: &Outcome, refused: &str, lossy: &str) -> (result: Result<(), String>)
    ensures
        fault(result) == outcome_fault(*outcome, refused@, lossy@),
{
    match outcome {
        Outcome::Refused => Err(refused.to_owned()),
        Outcome::Lossy => Err(lossy.to_owned()),
        Outcome::Built(_) => Ok(()),
    }
}

/// Why a profile cannot be made into a region or a surface.
pub open spec fn area_fault(
    doc: DocumentView,
    source: Handle,
    reply: KernelReply,
    refused: Seq<char>,
    lossy: Seq<char>,
) -> Fault {
    match reply {
        KernelReply::Profile { closed, outcome } => first(
            unless(
                kind_at(doc, source) != Some(Kind::Region),
                "the source is already a region"@,
            ),
            first(
                unless(closed, "the profile must be closed"@),
                outcome_fault(outcome, refused, lossy),
            ),
        ),
        _ => Some("the source is not a planar profile"@),
    }
}

fn check_area(
    doc: &CadDocument,
    source: Handle,
    reply: &KernelReply,
    refused: &str,
    lossy: &str,
) -> (result: Result<(), String>)
    ensures
        fault(result) == area_fault(doc@, source, *reply, refused@, lossy@),
{
    match reply {
        KernelReply::Profile { closed, outcome } => {
            check(!is_region(doc, source), "the source is already a region")?;
            check(*closed, "the profile must be closed")?;
            check_outcome(outcome, refused, lossy)
        },
        _ => Err("the source is not a planar profile".to_owned()),
    }
}

fn is_region(doc: &CadDocument, handle: Handle) -> (result: bool)
    ensures
        result == (kind_at(doc@, handle) == Some(Kind::Region)),
{
    match doc.get_entity(handle) {
        Some(entity) => entity.data.kind_of() == Kind::Region,
        None => false,
    }
}

fn is_surface(doc: &CadDocument, handle: Handle) -> (result: bool)
    ensures
        result == (kind_at(doc@, handle) == Some(Kind::Surface)),
{
    match doc.get_entity(handle) {
        Some(entity) => entity.data.kind_of() == Kind::Surface,
        None => false,
    }
}

/// A way to combine solids, as messages show it.
pub open spec fn boolean_name(operation: SolidBoolean) -> Seq<char> {
    match operation {
        SolidBoolean::Union => "Union"@,
        SolidBoolean::Subtract => "Subtract"@,
        SolidBoolean::Intersect => "Intersect"@,
    }
}

fn say_boolean(operation: SolidBoolean) -> (result: &'static str)
    ensures
        result@ == boolean_name(operation),
{
    match operation {
        SolidBoolean::Union => "Union",
        SolidBoolean::Subtract => "Subtract",
        SolidBoolean::Intersect => "Intersect",
    }
}

/// What stopped the kernel, as messages explain it.
pub open spec fn snag_text(snag: Snag) -> Seq<char> {
    match snag {
        Snag::Coincident =>
            " (Coincident): two faces lie on the same surface, which the kernel cannot resolve; nothing was changed"@,
        Snag::CutRefused =>
            " (CutRefused): a face could not be cut along the intersection curve; nothing was changed"@,
        Snag::NoClosedForm =>
            " (NoClosedForm): the surfaces meet along a curve the kernel has no closed form for; nothing was changed"@,
    }
}

fn say_snag(snag: Snag) -> (result: &'static str)
    ensures
        result@ == snag_text(snag),
{
    match snag {
        Snag::Coincident =>
            " (Coincident): two faces lie on the same surface, which the kernel cannot resolve; nothing was changed",
        Snag::CutRefused =>
            " (CutRefused): a face could not be cut along the intersection curve; nothing was changed",
        Snag::NoClosedForm =>
            " (NoClosedForm): the surfaces meet along a curve the kernel has no closed form for; nothing was changed",
    }
}

/// Why the kernel's answer cannot be used.
pub open spec fn reply_fault(
    doc: DocumentView,
    operation: SolidOperation,
    reply: KernelReply,
) -> Fault {
    match operation {
        SolidOperation::Create { primitive: _, layer } => match reply {
            KernelReply::Body(outcome) => first(
                outcome_fault(
                    outcome,
                    "the geometry kernel refused these dimensions"@,
                    "the solid could not be exported losslessly"@,
                ),
                asked_layer_fault(layer),
            ),
            _ => None,
        },
        SolidOperation::RegionFromProfile { source, .. } => area_fault(
            doc,
            source,
            reply,
            "the geometry kernel could not build a region from this profile"@,
            "the region could not be exported losslessly"@,
        ),
        SolidOperation::SurfaceFromProfile { source, .. } => area_fault(
            doc,
            source,
            reply,
            "the geometry kernel could not build a surface from this profile"@,
            "the surface could not be exported losslessly"@,
        ),
        SolidOperation::Extrude { source, .. } => match reply {
            KernelReply::Profile { closed: _, outcome } => first(
                unless(
                    kind_at(doc, source) != Some(Kind::Region),
                    "extrude a curve profile; a region cannot be extruded here"@,
                ),
                outcome_fault(
                    outcome,
                    "the geometry kernel could not extrude this profile in that direction"@,
                    "the extrusion could not be exported losslessly"@,
                ),
            ),
            _ => Some("the source is not a planar profile"@),
        },
        SolidOperation::EmbedPicture { path, .. } => match reply {
            KernelReply::Picture(Err(error)) => Some(
                "cannot read the picture "@ + quoted(path@) + ": "@ + error@,
            ),
            _ => None,
        },
        SolidOperation::Boolean { operation: kind, .. } => match reply {
            KernelReply::FirstUnreadable => Some(
                "the first solid's payload cannot be lifted losslessly, so nothing was changed"@,
            ),
            KernelReply::SecondUnreadable => Some(
                "the second solid's payload cannot be lifted losslessly, so nothing was changed"@,
            ),
            KernelReply::Snagged(snag) => Some(
                "the geometry kernel refused this "@ + boolean_name(kind) + snag_text(snag),
            ),
            KernelReply::Body(Outcome::Lossy) => Some(
                "the result could not be exported losslessly, so nothing was changed"@,
            ),
            _ => None,
        },
        SolidOperation::Transform { handle, .. } => match reply {
            KernelReply::Body(outcome) => outcome_fault(
                outcome,
                "the geometry kernel refused this transform"@,
                if kind_at(doc, handle) == Some(Kind::Surface) {
                    "the moved surface could not be exported losslessly"@
                } else {
                    "the moved body could not be exported losslessly"@
                },
            ),
            _ => Some(
                if kind_at(doc, handle) == Some(Kind::Surface) {
                    "this surface's payload cannot be lifted losslessly, so it is left untouched"@
                } else {
                    "this body's payload cannot be lifted losslessly, so it is left untouched"@
                },
            ),
        },
    }
}

/// Checks that the kernel's answer can be used.
pub fn check_reply(doc: &CadDocument, operation: &SolidOperation, reply: &KernelReply) -> (result:
    Result<(), String>)
    ensures
        fault(result) == reply_fault(doc@, *operation, *reply),
{
    match operation {
        SolidOperation::Create { primitive: _, layer } => match reply {
            KernelReply::Body(outcome) => {
                check_outcome(
                    outcome,
                    "the geometry kernel refused these dimensions",
                    "the solid could not be exported losslessly",
                )?;
                check_asked_layer(layer)
            },
            _ => Ok(()),
        },
        SolidOperation::RegionFromProfile { source, .. } => check_area(
            doc,
            *source,
            reply,
            "the geometry kernel could not build a region from this profile",
            "the region could not be exported losslessly",
        ),
        SolidOperation::SurfaceFromProfile { source, .. } => check_area(
            doc,
            *source,
            reply,
            "the geometry kernel could not build a surface from this profile",
            "the surface could not be exported losslessly",
        ),
        SolidOperation::Extrude { source, .. } => match reply {
            KernelReply::Profile { closed: _, outcome } => {
                check(
                    !is_region(doc, *source),
                    "extrude a curve profile; a region cannot be extruded here",
                )?;
                check_outcome(
                    outcome,
                    "the geometry kernel could not extrude this profile in that direction",
                    "the extrusion could not be exported losslessly",
                )
            },
            _ => Err("the source is not a planar profile".to_owned()),
        },
        SolidOperation::EmbedPicture { path, .. } => match reply {
            KernelReply::Picture(Err(error)) => Err(
                join(&join3("cannot read the picture ", &quote(path), ": "), error),
            ),
            _ => Ok(()),
        },
        SolidOperation::Boolean { operation: kind, .. } => match reply {
            KernelReply::FirstUnreadable => Err(
                "the first solid's payload cannot be lifted losslessly, so nothing was changed".to_owned(),
            ),
            KernelReply::SecondUnreadable => Err(
                "the second solid's payload cannot be lifted losslessly, so nothing was changed".to_owned(),
            ),
            KernelReply::Snagged(snag) => Err(
                join3(
                    "the geometry kernel refused this ",
                    say_boolean(*kind),
                    say_snag(*snag),
                ),
            ),
            KernelReply::Body(Outcome::Lossy) => Err(
                "the result could not be exported losslessly, so nothing was changed".to_owned(),
            ),
            _ => Ok(()),
        },
        SolidOperation::Transform { handle, .. } => {
            let surface = is_surface(doc, *handle);
            match reply {
                KernelReply::Body(outcome) => check_outcome(
                    outcome,
                    "the geometry kernel refused this transform",
                    if surface {
                        "the moved surface could not be exported losslessly"
                    } else {
                        "the moved body could not be exported losslessly"
                    },
                ),
                _ => Err(
                    (if surface {
                        "this surface's payload cannot be lifted losslessly, so it is left untouched"
                    } else {
                        "this body's payload cannot be lifted losslessly, so it is left untouched"
                    }).to_owned(),
                ),
            }
        },
    }
}

/// Why an operation comes to nothing.
pub open spec fn solid_fault(
    doc: DocumentView,
    operation: SolidOperation,
    reply: KernelReply,
) -> Fault {
    first(request_fault(doc, operation), reply_fault(doc, operation, reply))
}

/// What the kernel built.
pub open spec fn built(reply: KernelReply) -> Option<Arc<Encoded>> {
    match reply {
        KernelReply::Body(Outcome::Built(record)) => Some(record),
        KernelReply::Profile { outcome: Outcome::Built(record), .. } => Some(record),
        KernelReply::Picture(Ok(record)) => Some(record),
        _ => None,
    }
}

/// The layer of a result: the one that is asked for, or else another.
pub open spec fn result_layer(asked: Option<String>, otherwise: Seq<char>) -> Seq<char> {
    match asked {
        Some(name) => name@,
        None => otherwise,
    }
}

/// A new entity of what the kernel built.
pub open spec fn fresh(
    entity: EntityType,
    data: EntityData,
    layer: Seq<char>,
    record: Option<Arc<Encoded>>,
) -> bool {
    &&& entity.data == data
    &&& record == Some(entity.record)
    &&& entity.common.handle.null()
    &&& entity.common.owner_handle.null()
    &&& entity.common.layer@ == layer
    &&& !entity.common.on_paper
    &&& entity.common.look.empty()
    &&& entity.common.extended_data.records@.len() == 0
    &&& entity.common.extended_data.raw_dwg_eed@.len() == 0
}

/// The entity that an operation makes.
pub open spec fn makes(
    doc: DocumentView,
    operation: SolidOperation,
    reply: KernelReply,
    entity: EntityType,
) -> bool {
    match operation {
        SolidOperation::Create { primitive: _, layer } => fresh(
            entity,
            EntityData::Solid3D,
            result_layer(layer, "0"@),
            built(reply),
        ),
        SolidOperation::RegionFromProfile { source, layer, .. } => doc.entity(source) matches Some(
            profile,
        ) && fresh(
            entity,
            EntityData::Region,
            result_layer(layer, profile.common.layer@),
            built(reply),
        ),
        SolidOperation::SurfaceFromProfile { source, layer, .. } => doc.entity(source) matches Some(
            profile,
        ) && fresh(
            entity,
            EntityData::Surface(SurfaceKind::Plane),
            result_layer(layer, profile.common.layer@),
            built(reply),
        ),
        SolidOperation::Extrude { source, layer, .. } => doc.entity(source) matches Some(profile)
            && fresh(
            entity,
            if reply->closed {
                EntityData::Solid3D
            } else {
                EntityData::Surface(SurfaceKind::Generic)
            },
            result_layer(layer, profile.common.layer@),
            built(reply),
        ),
        SolidOperation::EmbedPicture { layer, .. } => fresh(
            entity,
            EntityData::Ole2Frame,
            result_layer(layer, "0"@),
            built(reply),
        ),
        SolidOperation::Boolean { first: first_operand, layer, .. } => doc.entity(
            first_operand,
        ) matches Some(solid) && {
            &&& entity.data == EntityData::Solid3D
            &&& built(reply) == Some(entity.record)
            &&& entity.common.layer@ == result_layer(layer, solid.common.layer@)
            &&& entity.common == (EntityCommon {
                handle: Handle { value: 0 },
                owner_handle: Handle { value: 0 },
                layer: entity.common.layer,
                ..solid.common
            })
        },
        SolidOperation::Transform { handle, .. } => doc.entity(handle) matches Some(before) && {
            &&& entity.common == before.common
            &&& built(reply) == Some(entity.record)
            &&& entity.data == match before.data {
                EntityData::Surface(kind) => EntityData::Surface(
                    if kind is Plane {
                        SurfaceKind::Plane
                    } else {
                        SurfaceKind::Generic
                    },
                ),
                other => other,
            }
        },
    }
}

/// The name under which an operation can be undone.
pub open spec fn operation_label(operation: SolidOperation) -> Seq<char> {
    match operation {
        SolidOperation::Create { .. } => "Create solid"@,
        SolidOperation::RegionFromProfile { .. } => "Create region"@,
        SolidOperation::SurfaceFromProfile { .. } => "Create surface"@,
        SolidOperation::Extrude { .. } => "Extrude profile"@,
        SolidOperation::EmbedPicture { .. } => "Embed picture"@,
        SolidOperation::Boolean { .. } => "Boolean solids"@,
        SolidOperation::Transform { .. } => "Transform solid"@,
    }
}

fn label_of(operation: &SolidOperation) -> (result: &'static str)
    ensures
        result@ == operation_label(*operation),
{
    match operation {
        SolidOperation::Create { .. } => "Create solid",
        SolidOperation::RegionFromProfile { .. } => "Create region",
        SolidOperation::SurfaceFromProfile { .. } => "Create surface",
        SolidOperation::Extrude { .. } => "Extrude profile",
        SolidOperation::EmbedPicture { .. } => "Embed picture",
        SolidOperation::Boolean { .. } => "Boolean solids",
        SolidOperation::Transform { .. } => "Transform solid",
    }
}

/// What an operation uses up.
pub open spec fn used_up(operation: SolidOperation) -> Seq<Handle> {
    match operation {
        SolidOperation::RegionFromProfile { source, delete_source: true, .. } => seq![source],
        SolidOperation::SurfaceFromProfile { source, delete_source: true, .. } => seq![source],
        SolidOperation::Extrude { source, delete_source: true, .. } => seq![source],
        SolidOperation::Boolean {
            first: first_operand,
            second,
            keep_operands: false,
            ..
        } => seq![first_operand, second],
        _ => Seq::empty(),
    }
}

fn uses_up(operation: &SolidOperation) -> (result: Vec<Handle>)
    ensures
        result@ == used_up(*operation),
{
    let mut handles: Vec<Handle> = Vec::new();
    match operation {
        SolidOperation::RegionFromProfile { source, delete_source: true, .. } => handles.push(
            *source,
        ),
        SolidOperation::SurfaceFromProfile { source, delete_source: true, .. } => handles.push(
            *source,
        ),
        SolidOperation::Extrude { source, delete_source: true, .. } => handles.push(*source),
        SolidOperation::Boolean {
            first: first_operand,
            second,
            keep_operands: false,
            ..
        } => {
            handles.push(*first_operand);
            handles.push(*second);
        },
        _ => {},
    }
    proof {
        assert(handles@ =~= used_up(*operation));
    }
    handles
}

/// The application with a new entity, without what was used up.
pub open spec fn made<S, C>(
    before: StudioView<S, C>,
    after: StudioView<S, C>,
    tab: int,
    open: bool,
    entity: EntityType,
    gone: Seq<Handle>,
    handle: Handle,
) -> bool {
    exists|scripted: Scripted, middle: StudioView<S, C>|
        {
            &&& #[trigger] added(before, middle, tab, open, scripted, handle)
            &&& scripted.entity == entity
            &&& scripted.derived is Nothing
            &&& after == if gone.len() == 0 {
                middle
            } else {
                published(
                    with_scene(middle, tab, erased(middle.tabs[tab].scene, gone)),
                    tab,
                    open,
                )
            }
        }
}

/// The application with an entity in the place of the one with its handle.
pub open spec fn moved<S, C>(
    before: StudioView<S, C>,
    after: StudioView<S, C>,
    tab: int,
    open: bool,
    entity: EntityType,
) -> bool {
    exists|scripted: Scripted|
        {
            &&& #[trigger] updated(before, after, tab, open, scripted, true)
            &&& scripted.entity == entity
            &&& scripted.derived is Nothing
        }
}

/// What an operation comes to.
pub open spec fn solid_done<S, C>(
    before: StudioView<S, C>,
    after: StudioView<S, C>,
    tab: int,
    open: bool,
    operation: SolidOperation,
    reply: KernelReply,
    handle: Handle,
) -> bool {
    let doc = before.tabs[tab].scene.document;
    let start = recorded(before, tab, operation_label(operation));
    exists|entity: EntityType| #[trigger]
        makes(doc, operation, reply, entity) && match operation {
            SolidOperation::Transform { handle: target, .. } => handle == target && moved(
                start,
                after,
                tab,
                open,
                entity,
            ),
            _ => made(start, after, tab, open, entity, used_up(operation), handle),
        }
}

/// What an operation comes to. Where it fails, nothing changes.
pub open spec fn solid_outcome<S, C>(
    before: StudioView<S, C>,
    after: StudioView<S, C>,
    tab: int,
    open: bool,
    operation: SolidOperation,
    reply: KernelReply,
    result: Result<Handle, String>,
) -> bool {
    &&& fault(result) == solid_fault(before.tabs[tab].scene.document, operation, reply)
    &&& match result {
        Ok(handle) => solid_done(before, after, tab, open, operation, reply, handle),
        Err(_) => after == before,
    }
}

/// What the kernel built.
fn take_built(reply: KernelReply) -> (result: Option<Arc<Encoded>>)
    ensures
        result == built(reply),
{
    match reply {
        KernelReply::Body(Outcome::Built(record)) => Some(record),
        KernelReply::Profile { outcome: Outcome::Built(record), .. } => Some(record),
        KernelReply::Picture(Ok(record)) => Some(record),
        _ => None,
    }
}

fn layer_for(asked: &Option<String>, otherwise: &str) -> (result: String)
    ensures
        result@ == result_layer(*asked, otherwise@),
{
    match asked {
        Some(name) => name.clone(),
        None => otherwise.to_owned(),
    }
}

/// A new entity.
fn fresh_entity(data: EntityData, layer: String, record: Arc<Encoded>) -> (result: EntityType)
    ensures
        fresh(result, data, layer@, Some(record)),
{
    EntityType {
        common: EntityCommon {
            handle: Handle { value: 0 },
            layer,
            owner_handle: Handle { value: 0 },
            on_paper: false,
            extended_data: Arc::new(
                ExtendedData { records: Vec::new(), raw_dwg_eed: Vec::new() },
            ),
            look: Arc::new(Encoded::none()),
        },
        data,
        record,
    }
}

fn layer_of(doc: &CadDocument, handle: Handle) -> (result: String)
    ensures
        doc@.entity(handle) matches Some(entity) ==> result@ == entity.common.layer@,
{
    match doc.get_entity(handle) {
        Some(entity) => entity.common.layer.clone(),
        None => "0".to_owned(),
    }
}

/// The entity that an operation makes.
fn make(doc: &CadDocument, operation: &SolidOperation, reply: KernelReply) -> (result: Option<
    EntityType,
>)
    requires
        reply.answers(*operation),
        solid_fault(doc@, *operation, reply) is None,
    ensures
        result matches Some(entity) && makes(doc@, *operation, reply, entity),
{
    let closed = match &reply {
        KernelReply::Profile { closed, .. } => *closed,
        _ => false,
    };
    let record = match take_built(reply) {
        Some(record) => record,
        None => {
            return None;
        },
    };
    match operation {
        SolidOperation::Create { primitive: _, layer } => Some(
            fresh_entity(EntityData::Solid3D, layer_for(layer, "0"), record),
        ),
        SolidOperation::RegionFromProfile { source, layer, .. } => Some(
            fresh_entity(EntityData::Region, layer_for(layer, &layer_of(doc, *source)), record),
        ),
        SolidOperation::SurfaceFromProfile { source, layer, .. } => Some(
            fresh_entity(
                EntityData::Surface(SurfaceKind::Plane),
                layer_for(layer, &layer_of(doc, *source)),
                record,
            ),
        ),
        SolidOperation::Extrude { source, layer, .. } => Some(
            fresh_entity(
                if closed {
                    EntityData::Solid3D
                } else {
                    EntityData::Surface(SurfaceKind::Generic)
                },
                layer_for(layer, &layer_of(doc, *source)),
                record,
            ),
        ),
        SolidOperation::EmbedPicture { layer, .. } => Some(
            fresh_entity(EntityData::Ole2Frame, layer_for(layer, "0"), record),
        ),
        SolidOperation::Boolean { first: first_operand, layer, .. } => match doc.get_entity(
            *first_operand,
        ) {
            Some(solid) => Some(
                EntityType {
                    common: EntityCommon {
                        handle: Handle { value: 0 },
                        layer: layer_for(layer, &solid.common.layer),
                        owner_handle: Handle { value: 0 },
                        on_paper: solid.common.on_paper,
                        extended_data: share(&solid.common.extended_data),
                        look: share(&solid.common.look),
                    },
                    data: EntityData::Solid3D,
                    record,
                },
            ),
            None => None,
        },
        SolidOperation::Transform { handle, .. } => match doc.get_entity(*handle) {
            Some(before) => Some(
                EntityType {
                    common: before.common.copy(),
                    data: match &before.data {
                        EntityData::Surface(kind) => EntityData::Surface(
                            if *kind == SurfaceKind::Plane {
                                SurfaceKind::Plane
                            } else {
                                SurfaceKind::Generic
                            },
                        ),
                        other => other.copy(),
                    },
                    record,
                },
            ),
            None => None,
        },
    }
}

/// The kinds that operations make need nothing from the engine.
proof fn made_kinds(
    doc: DocumentView,
    operation: SolidOperation,
    reply: KernelReply,
    entity: EntityType,
)
    requires
        request_fault(doc, operation) is None,
        makes(doc, operation, reply, entity),
    ensures
        entity.data is Solid3D || entity.data is Region || entity.data is Surface
            || entity.data is Ole2Frame || entity.data is Body,
        !(operation is Transform) ==> entity.common.handle.null(),
{
}

/// A new entity gets a handle that is not null.
proof fn new_handle_is_given(before: DocumentView, after: DocumentView, entity: EntityType)
    requires
        crate::scene::entity_added(before, after, entity),
        before.next_handle > 0,
        before.spare(2),
        entity.common.handle.null(),
    ensures
        !after.entities.last().common.handle.null(),
{
}

impl<'a, S, C> HostSession<'a, S, C> {
    /// Adds what an operation made and erases what it used up.
    fn commit_result(&mut self, entity: EntityType, gone: &Vec<Handle>) -> (result: Handle)
        requires
            old(self).valid(),
            old(self).doc().spare(4),
            old(self).doc().next_handle > 0,
            entity.common.handle.null(),
            entity.data is Solid3D || entity.data is Region || entity.data is Surface
                || entity.data is Ole2Frame || entity.data is Body,
        ensures
            !result.null(),
            made(
                old(self).state(),
                final(self).state(),
                old(self).tab as int,
                old(self).doc_store is Some,
                entity,
                gone@,
                result,
            ),
            final(self).continues(*old(self)),
            final(self).valid(),
            *final(final(self).app) == *final(old(self).app),
    {
        let ghost before = self.state();
        let ghost doc = self.doc();
        let tab: usize = self.tab;
        let scripted = Scripted { entity, derived: Derived::Nothing, file: Err("".to_owned()) };
        let ghost given = scripted;
        let handle = self.add_entity(scripted);
        let ghost middle = self.state();
        let ghost tabs = self.app.tabs@;
        proof {
            assert(added(before, middle, tab as int, self.doc_store is Some, given, handle));
            let (prepared, linked, ready) = choose|
                prepared: DocumentView,
                linked: EntityType,
                ready: EntityType,
            |
                {
                    &&& #[trigger] crate::images::image_prepared(
                        doc,
                        prepared,
                        given.entity,
                        linked,
                        given.file,
                    )
                    &&& #[trigger] crate::normalize::normalized(
                        prepared,
                        None,
                        linked,
                        ready,
                        given.derived,
                    )
                    &&& if ready.data is AttributeEntity {
                        crate::scripting::attribute_outcome(
                            before,
                            middle,
                            tab as int,
                            self.doc_store is Some,
                            ready,
                            handle,
                        )
                    } else {
                        crate::scripting::entity_outcome(
                            before,
                            middle,
                            tab as int,
                            self.doc_store is Some,
                            prepared,
                            ready,
                            handle,
                        )
                    }
                };
            new_handle_is_given(doc, middle.tabs[tab as int].scene.document, ready);
            assert(tabs[tab as int]@ == middle.tabs[tab as int]);
        }
        if gone.len() > 0 {
            self.app.tabs[tab].scene.erase_entities(gone);
            proof {
                tab_changes(tabs, self.app.tabs@, tab as int);
                assert(self.state().tabs =~= with_scene(
                    middle,
                    tab as int,
                    erased(middle.tabs[tab as int].scene, gone@),
                ).tabs);
            }
            self.publish_document_view();
        }
        handle
    }

    /// Makes or moves a solid, a region, a surface or an embedded picture.
    /// `reply` is what the kernel answered. The result is the handle of the
    /// entity; a failure never changes the drawing.
    pub fn solid_operation(&mut self, operation: SolidOperation, reply: KernelReply) -> (result:
        Result<Handle, String>)
        requires
            old(self).valid(),
            old(self).doc().spare(4),
            old(self).doc().next_handle > 0,
            reply.answers(operation),
        ensures
            solid_outcome(
                old(self).state(),
                final(self).state(),
                old(self).tab as int,
                old(self).doc_store is Some,
                operation,
                reply,
                result,
            ),
            final(self).continues(*old(self)),
            final(self).valid(),
            *final(final(self).app) == *final(old(self).app),
    {
        let ghost doc = self.doc();
        let ghost answer = reply;
        let tab: usize = self.tab;
        check_request(&self.app.tabs[tab].scene.document, &operation)?;
        check_reply(&self.app.tabs[tab].scene.document, &operation, &reply)?;
        let entity = match make(&self.app.tabs[tab].scene.document, &operation, reply) {
            Some(entity) => entity,
            None => {
                return Err("the result could not be added".to_owned());
            },
        };
        let ghost result_entity = entity;
        proof {
            made_kinds(doc, operation, answer, entity);
        }
        self.push_undo(label_of(&operation));
        let ghost start = self.state();
        if let SolidOperation::Transform { handle, .. } = &operation {
            let handle = *handle;
            let scripted = Scripted {
                entity,
                derived: Derived::Nothing,
                file: Err("".to_owned()),
            };
            let ghost given = scripted;
            proof {
                crate::search::seek_back_finds(
                    doc.entities,
                    doc.entities.len() as int,
                    entity_with(handle),
                );
            }
            let applied = self.update_entity(scripted);
            proof {
                assert(updated(
                    start,
                    self.state(),
                    tab as int,
                    self.doc_store is Some,
                    given,
                    applied,
                ));
            }
            return Ok(handle);
        }
        let gone = uses_up(&operation);
        let handle = self.commit_result(entity, &gone);
        proof {
            assert(makes(doc, operation, answer, result_entity));
        }
        Ok(handle)
    }
}

/// An operation that fails leaves everything as it was: the drawing with its
/// tables and objects, and the history. It fails exactly where the request or the
/// reply of the kernel does not do.
pub proof fn failed_solid_changes_nothing<S, C>(
    before: StudioView<S, C>,
    after: StudioView<S, C>,
    tab: int,
    open: bool,
    operation: SolidOperation,
    reply: KernelReply,
    result: Result<Handle, String>,
)
    requires
        solid_outcome(before, after, tab, open, operation, reply, result),
    ensures
        result is Err <==> solid_fault(before.tabs[tab].scene.document, operation, reply) is Some,
        result is Err ==> after == before,
{
}

/// An operation is undone in one step.
pub proof fn solid_undoes_in_one_step<S, C>(
    before: StudioView<S, C>,
    after: StudioView<S, C>,
    tab: int,
    open: bool,
    operation: SolidOperation,
    reply: KernelReply,
    handle: Handle,
)
    requires
        0 <= tab < before.tabs.len(),
        solid_done(before, after, tab, open, operation, reply, handle),
    ensures
        after.tabs[tab].undo.len() == before.tabs[tab].undo.len() + 1,
        undone(after.tabs[tab]).scene.document == before.tabs[tab].scene.document,
        undone(after.tabs[tab]).undo == before.tabs[tab].undo,
        redone(undone(after.tabs[tab])).scene.document == after.tabs[tab].scene.document,
{
    let label = operation_label(operation);
    undo_and_redo_are_inverse(before.tabs[tab], after.tabs[tab], after.tabs[tab], label);
}

} // verus!
