//! Binding the names in an entity to the handles of a drawing.

use crate::document::{CadDocument, DocumentView};
use crate::entities::{AttributeEntity, EntityData, EntityType, MLine, Shape, Tolerance};
use crate::geometry::{target, target_of, Handle};
use crate::records::{find_spelled, spelled, DimStyle, TextStyle};
use crate::reference_rules::{
    defines_tag, definition, find_tag, get_definition, get_owning_insert, mline_style,
    owning_insert, reference_fault, resolve_mline_style, validate_canvas_entity_references,
};
use crate::search::{pick, seek, seek_finds};
use crate::text::{fault, is_alike, join, join3, quote, quoted, trim, trimmed, Fault};
use std::sync::Arc;
use vstd::prelude::*;
use vstd::string::*;

verus! {

/// The dimension style of a tolerance frame: the one it is bound to, or else the
/// one it names.
pub open spec fn tolerance_binding(doc: DocumentView, value: Tolerance) -> Option<Handle> {
    if target(value.dimension_style_handle) is Some {
        value.dimension_style_handle
    } else {
        match pick(doc.dim_styles, spelled::<DimStyle>(trimmed(value.dimension_style_name@))) {
            Some(style) => Some(style.handle),
            None => None,
        }
    }
}

/// The style of a multiline: the one it is bound to, or else the one it names.
pub open spec fn mline_binding(doc: DocumentView, value: MLine) -> Option<Handle> {
    if target(value.style_handle) is Some {
        value.style_handle
    } else {
        match mline_style(doc, value) {
            Some(style) => Some(style.handle),
            None => None,
        }
    }
}

/// The style of a shape: the one it is bound to, or else the one it names.
pub open spec fn shape_binding(doc: DocumentView, value: Shape) -> Option<Handle> {
    if target(value.style_handle) is Some {
        value.style_handle
    } else {
        match pick(doc.text_styles, spelled::<TextStyle>(trimmed(value.style_name@))) {
            Some(style) => Some(style.handle),
            None => None,
        }
    }
}

/// The handle is the given one and leads to an attribute definition with the tag.
pub open spec fn current_definition(doc: DocumentView, attdef: Handle, tag: Seq<char>) -> spec_fn(
    Handle,
) -> bool {
    |handle: Handle| handle == attdef && defines_tag(doc, tag)(handle)
}

/// The definition of an attribute in the block that its owner refers to: the one
/// it is bound to where that has its tag, or else the first one that has. Or why
/// there is none.
pub open spec fn attribute_binding(
    doc: DocumentView,
    owner: Handle,
    value: AttributeEntity,
) -> Result<Handle, Seq<char>> {
    match owning_insert(doc, owner) {
        None => Err("AttributeEntity requires an existing Insert owner"@),
        Some(insert) => match doc.block(trimmed(insert.block_name@)) {
            None => Err(
                "AttributeEntity owner references missing block "@ + quoted(insert.block_name@),
            ),
            Some(block) => {
                let tag = trimmed(value.text.tag@);
                if pick(
                    block.entity_handles@,
                    current_definition(doc, value.attdef_handle, tag),
                ) is Some {
                    Ok(value.attdef_handle)
                } else {
                    match pick(block.entity_handles@, defines_tag(doc, tag)) {
                        Some(handle) => Ok(handle),
                        None => Err(
                            "AttributeEntity tag "@ + quoted(value.text.tag@)
                                + " has no definition in block "@ + quoted(insert.block_name@),
                        ),
                    }
                }
            },
        },
    }
}

/// `after` is `before` with its names bound.
pub open spec fn binds(doc: DocumentView, before: EntityType, after: EntityType) -> bool {
    &&& after.common == before.common
    &&& after.record == before.record
    &&& match before.data {
        EntityData::Tolerance(old) => after.data matches EntityData::Tolerance(new) && *new == (
        Tolerance { dimension_style_handle: tolerance_binding(doc, *old), ..*old }),
        EntityData::MLine(old) => after.data matches EntityData::MLine(new) && *new == (MLine {
            style_handle: mline_binding(doc, *old),
            ..*old
        }),
        EntityData::Shape(old) => after.data matches EntityData::Shape(new) && *new == (Shape {
            style_handle: shape_binding(doc, *old),
            ..*old
        }),
        EntityData::AttributeEntity(old) => after.data matches EntityData::AttributeEntity(new)
            && *new == (AttributeEntity {
            attdef_handle: match attribute_binding(doc, before.common.owner_handle, *old) {
                Ok(handle) => handle,
                Err(_) => old.attdef_handle,
            },
            ..*old
        }),
        _ => after.data == before.data,
    }
}

/// Why an entity cannot be bound, or why what it then refers to does not do.
pub open spec fn binding_fault(doc: DocumentView, before: EntityType, after: EntityType) -> Fault {
    match before.data {
        EntityData::AttributeEntity(value) => match attribute_binding(
            doc,
            before.common.owner_handle,
            *value,
        ) {
            Err(message) => Some(message),
            Ok(_) => reference_fault(doc, after),
        },
        _ => reference_fault(doc, after),
    }
}

fn bind_tolerance(doc: &CadDocument, value: &Tolerance) -> (result: Tolerance)
    ensures
        result == (Tolerance {
            dimension_style_handle: tolerance_binding(doc@, *value),
            ..*value
        }),
{
    let handle: Option<Handle> = if target_of(value.dimension_style_handle).is_some() {
        value.dimension_style_handle
    } else {
        match find_spelled(&doc.dim_styles, trim(&value.dimension_style_name)) {
            Some(i) => Some(doc.dim_styles[i].handle),
            None => None,
        }
    };
    value.bound_to(handle)
}

fn bind_mline(doc: &CadDocument, value: &MLine) -> (result: MLine)
    ensures
        result == (MLine { style_handle: mline_binding(doc@, *value), ..*value }),
{
    let handle: Option<Handle> = if target_of(value.style_handle).is_some() {
        value.style_handle
    } else {
        match resolve_mline_style(doc, value) {
            Some(style) => Some(style.handle),
            None => None,
        }
    };
    value.bound_to(handle)
}

fn bind_shape(doc: &CadDocument, value: &Shape) -> (result: Shape)
    ensures
        result == (Shape { style_handle: shape_binding(doc@, *value), ..*value }),
{
    let handle: Option<Handle> = if target_of(value.style_handle).is_some() {
        value.style_handle
    } else {
        match find_spelled(&doc.text_styles, trim(&value.style_name)) {
            Some(i) => Some(doc.text_styles[i].handle),
            None => None,
        }
    };
    value.bound_to(handle)
}

/// Whether the member `attdef` of a block is a definition with the tag.
fn has_current(doc: &CadDocument, handles: &Vec<Handle>, attdef: Handle, tag: &str) -> (result: bool)
    ensures
        result == (pick(handles@, current_definition(doc@, attdef, tag@)) is Some),
{
    let mut i: usize = 0;
    while i < handles.len()
        invariant
            i <= handles.len(),
            seek(handles@, 0, current_definition(doc@, attdef, tag@)) == seek(
                handles@,
                i as int,
                current_definition(doc@, attdef, tag@),
            ),
        decreases handles.len() - i,
    {
        if handles[i] == attdef {
            if let Some(value) = get_definition(doc, handles[i]) {
                if is_alike(&value.text.tag, tag) {
                    return true;
                }
            }
        }
        i = i + 1;
    }
    false
}

fn bind_attribute(doc: &CadDocument, owner: Handle, value: &AttributeEntity) -> (result: Result<
    Handle,
    String,
>)
    ensures
        match attribute_binding(doc@, owner, *value) {
            Ok(handle) => result == Ok::<Handle, String>(handle),
            Err(message) => fault(result) == Some(message),
        },
{
    let insert = match get_owning_insert(doc, owner) {
        None => {
            return Err("AttributeEntity requires an existing Insert owner".to_owned());
        },
        Some(insert) => insert,
    };
    let block = match doc.get_block(trim(&insert.block_name)) {
        None => {
            return Err(
                join(
                    "AttributeEntity owner references missing block ",
                    &quote(&insert.block_name),
                ),
            );
        },
        Some(block) => block,
    };
    let tag = trim(&value.text.tag);
    if has_current(doc, &block.entity_handles, value.attdef_handle, tag) {
        return Ok(value.attdef_handle);
    }
    match find_tag(doc, block, tag) {
        Some(handle) => Ok(handle),
        None => Err(
            join(
                &join3(
                    "AttributeEntity tag ",
                    &quote(&value.text.tag),
                    " has no definition in block ",
                ),
                &quote(&insert.block_name),
            ),
        ),
    }
}

/// Fills the references that an entity makes by name with stable handles, and
/// checks all its references. A handle that is there already is authoritative:
/// the name beside it may be stale.
pub fn bind_canvas_entity_references(doc: &CadDocument, entity: &mut EntityType) -> (result: Result<
    (),
    String,
>)
    ensures
        binds(doc@, *old(entity), *final(entity)),
        fault(result) == binding_fault(doc@, *old(entity), *final(entity)),
{
    let bound: EntityData = match &entity.data {
        EntityData::Tolerance(value) => EntityData::Tolerance(
            Arc::new(bind_tolerance(doc, value)),
        ),
        EntityData::MLine(value) => EntityData::MLine(Arc::new(bind_mline(doc, value))),
        EntityData::Shape(value) => EntityData::Shape(Arc::new(bind_shape(doc, value))),
        EntityData::AttributeEntity(value) => {
            let handle = bind_attribute(doc, entity.common.owner_handle, value)?;
            EntityData::AttributeEntity(Arc::new(value.bound_to(handle)))
        },
        other => other.copy(),
    };
    entity.data = bound;
    validate_canvas_entity_references(doc, entity)
}

/// Binding a second time changes nothing.
pub proof fn binding_is_stable(
    doc: DocumentView,
    before: EntityType,
    once: EntityType,
    twice: EntityType,
)
    requires
        binds(doc, before, once),
        binds(doc, once, twice),
    ensures
        twice == once,
{
    match before.data {
        EntityData::AttributeEntity(old) => {
            let owner = before.common.owner_handle;
            if let Some(insert) = owning_insert(doc, owner) {
                if let Some(block) = doc.block(trimmed(insert.block_name@)) {
                    let handles = block.entity_handles@;
                    let tag = trimmed(old.text.tag@);
                    seek_finds(handles, 0, defines_tag(doc, tag));
                    seek_finds(handles, 0, current_definition(doc, old.attdef_handle, tag));
                    if let EntityData::AttributeEntity(new) = once.data {
                        seek_finds(handles, 0, current_definition(doc, new.attdef_handle, tag));
                    }
                }
            }
        },
        _ => {},
    }
}

/// A handle that an entity holds stays, whatever the name beside it says.
pub proof fn held_handles_stay(doc: DocumentView, before: EntityType, after: EntityType)
    requires
        binds(doc, before, after),
    ensures
        before.data matches EntityData::Tolerance(old) ==> target(old.dimension_style_handle) is Some
            ==> (after.data matches EntityData::Tolerance(new) && new.dimension_style_handle
            == old.dimension_style_handle),
        before.data matches EntityData::MLine(old) ==> target(old.style_handle) is Some ==> (
        after.data matches EntityData::MLine(new) && new.style_handle == old.style_handle),
        before.data matches EntityData::Shape(old) ==> target(old.style_handle) is Some ==> (
        after.data matches EntityData::Shape(new) && new.style_handle == old.style_handle),
{
}

} // verus!
