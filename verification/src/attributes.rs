//! The attributes that a block reference stores.

use crate::agree::share;
use crate::document::{entity_with, CadDocument, DocumentView};
use crate::entities::{AttributeRecord, EntityData, EntityType, Insert};
use crate::geometry::Handle;
use crate::reference_rules::owning_insert;
use crate::scene::{entity_replaced, locked};
use crate::search::{passing, pick, place, seek, seek_back_finds, seek_finds};
use std::sync::Arc;
use vstd::prelude::*;

verus! {

/// The attribute has the handle.
pub open spec fn attribute_with(handle: Handle) -> spec_fn(AttributeRecord) -> bool {
    |attribute: AttributeRecord| attribute.common.handle == handle
}

/// The attribute does not have the handle.
pub open spec fn attribute_other_than(handle: Handle) -> spec_fn(AttributeRecord) -> bool {
    |attribute: AttributeRecord| attribute.common.handle != handle
}

/// The attribute with a handle in a block reference.
pub open spec fn attribute_in(entity: EntityType, handle: Handle) -> Option<AttributeRecord> {
    match entity.data {
        EntityData::Insert(insert) => pick(insert.attributes@, attribute_with(handle)),
        _ => None,
    }
}

/// The entity is a block reference that stores the attribute.
pub open spec fn stores(handle: Handle) -> spec_fn(EntityType) -> bool {
    |entity: EntityType| attribute_in(entity, handle) is Some
}

/// The attribute with a handle, in the first block reference that stores one.
pub open spec fn nested(doc: DocumentView, handle: Handle) -> Option<AttributeRecord> {
    match pick(doc.entities, stores(handle)) {
        Some(entity) => attribute_in(entity, handle),
        None => None,
    }
}

/// The handle leads to one thing that can be removed: no attribute shares it with
/// an entity that goes, nor with another attribute, and an attribute is not
/// stored outside the block reference that it names as its owner. One whose owner
/// is missing does not count.
pub open spec fn single(doc: DocumentView, handle: Handle) -> bool {
    if doc.entity(handle) is Some {
        locked(doc, handle) || forall|i: int|
            0 <= i < doc.entities.len() ==> attribute_in(#[trigger] doc.entities[i], handle) is None
    } else {
        nested(doc, handle) matches Some(attribute) ==> owning_insert(
            doc,
            attribute.common.owner_handle,
        ) is Some ==> forall|i: int|
            0 <= i < doc.entities.len() && attribute_in(#[trigger] doc.entities[i], handle) is Some
                ==> doc.entity_place(attribute.common.owner_handle) == Some(i)
    }
}

/// Scripts that ask for the handle see the attribute in its owner: no entity has
/// the handle, and no block reference before the owner stores an attribute with
/// it.
pub open spec fn seen_in(doc: DocumentView, owner: Handle, handle: Handle) -> bool {
    doc.entity(handle) is None && seek(doc.entities, 0, stores(handle)) == doc.entity_place(owner)
}

/// An entity as scripts see it: one of the drawing, or an attribute that a block
/// reference stores.
pub open spec fn model_entity(doc: DocumentView, handle: Handle) -> Option<EntityType> {
    match doc.entity(handle) {
        Some(entity) => Some(entity),
        None => match nested(doc, handle) {
            Some(attribute) => Some(attribute.as_entity()),
            None => None,
        },
    }
}

/// The block reference `after` is `before` with other attributes.
pub open spec fn reattributed(
    before: EntityType,
    after: EntityType,
    attributes: Seq<AttributeRecord>,
) -> bool {
    &&& after.common == before.common
    &&& after.record == before.record
    &&& before.data matches EntityData::Insert(old_insert) && (after.data matches EntityData::Insert(
        insert,
    ) && insert.attributes@ == attributes && *insert == (Insert {
        attributes: insert.attributes,
        ..*old_insert
    }))
}

/// The block reference that owns an attribute is replaced by one with other
/// attributes.
pub open spec fn owner_reattributed(
    before: DocumentView,
    after: DocumentView,
    owner: Handle,
    attributes: Seq<AttributeRecord>,
) -> bool {
    exists|changed: EntityType| #[trigger]
        entity_replaced(before, after, changed) && (before.entity(owner) matches Some(entity)
            && reattributed(entity, changed, attributes))
}

/// An attribute joined those of the block reference that owns it.
pub open spec fn attribute_attached(
    before: DocumentView,
    after: DocumentView,
    attribute: AttributeRecord,
) -> bool {
    let owner = attribute.common.owner_handle;
    owning_insert(before, owner) matches Some(insert) && owner_reattributed(
        before,
        after,
        owner,
        insert.attributes@.push(attribute),
    )
}

/// The place of an attribute in the block reference that owns it.
pub open spec fn attribute_slot(doc: DocumentView, owner: Handle, handle: Handle) -> Option<int> {
    match owning_insert(doc, owner) {
        Some(insert) => seek(insert.attributes@, 0, attribute_with(handle)),
        None => None,
    }
}

/// An attribute took the place of the one with its handle in the block reference
/// that owns it.
pub open spec fn attribute_replaced(
    before: DocumentView,
    after: DocumentView,
    attribute: AttributeRecord,
) -> bool {
    let owner = attribute.common.owner_handle;
    owning_insert(before, owner) matches Some(insert) && (attribute_slot(
        before,
        owner,
        attribute.common.handle,
    ) matches Some(i) && owner_reattributed(
        before,
        after,
        owner,
        insert.attributes@.update(i, attribute),
    ))
}

/// An attribute left the block reference that owns it.
pub open spec fn attribute_dropped(
    before: DocumentView,
    after: DocumentView,
    owner: Handle,
    handle: Handle,
) -> bool {
    owning_insert(before, owner) matches Some(insert) && owner_reattributed(
        before,
        after,
        owner,
        passing(insert.attributes@, attribute_other_than(handle)),
    )
}

/// The place of an attribute among others.
pub fn find_attribute(attributes: &Vec<AttributeRecord>, handle: Handle) -> (result: Option<usize>)
    ensures
        place(result) == seek(attributes@, 0, attribute_with(handle)),
        result matches Some(i) ==> i < attributes.len(),
{
    let mut i: usize = 0;
    while i < attributes.len()
        invariant
            i <= attributes.len(),
            seek(attributes@, 0, attribute_with(handle)) == seek(
                attributes@,
                i as int,
                attribute_with(handle),
            ),
        decreases attributes.len() - i,
    {
        if attributes[i].common.handle == handle {
            return Some(i);
        }
        i = i + 1;
    }
    None
}

fn copy_attributes(attributes: &Vec<AttributeRecord>) -> (result: Vec<AttributeRecord>)
    ensures
        result@ == attributes@,
{
    let mut result: Vec<AttributeRecord> = Vec::new();
    let mut i: usize = 0;
    while i < attributes.len()
        invariant
            i <= attributes.len(),
            result@ == attributes@.take(i as int),
        decreases attributes.len() - i,
    {
        result.push(attributes[i].copy());
        i = i + 1;
        proof {
            assert(result@ =~= attributes@.take(i as int));
        }
    }
    proof {
        assert(result@ =~= attributes@);
    }
    result
}

/// A block reference with other attributes.
pub(crate) fn reattribute(entity: &EntityType, attributes: Vec<AttributeRecord>) -> (result: EntityType)
    requires
        entity.data is Insert,
    ensures
        reattributed(*entity, result, attributes@),
{
    let data = match &entity.data {
        EntityData::Insert(insert) => EntityData::Insert(
            Arc::new(
                Insert {
                    block_name: insert.block_name.clone(),
                    attributes: Arc::new(attributes),
                    view_rep_handle: insert.view_rep_handle,
                    seqend_handle: insert.seqend_handle,
                    insert_point: insert.insert_point,
                    normal: insert.normal,
                    x_scale: insert.x_scale,
                    y_scale: insert.y_scale,
                    z_scale: insert.z_scale,
                    rotation: insert.rotation,
                    column_spacing: insert.column_spacing,
                    row_spacing: insert.row_spacing,
                    column_count: insert.column_count,
                    row_count: insert.row_count,
                },
            ),
        ),
        other => other.copy(),
    };
    EntityType { common: entity.common.copy(), data, record: share(&entity.record) }
}

/// The block reference that owns an attribute, with the attribute among its own.
pub fn with_attribute(entity: &EntityType, attribute: AttributeRecord) -> (result: EntityType)
    requires
        entity.data is Insert,
    ensures
        entity.data matches EntityData::Insert(insert) && reattributed(
            *entity,
            result,
            insert.attributes@.push(attribute),
        ),
{
    let mut attributes: Vec<AttributeRecord> = match &entity.data {
        EntityData::Insert(insert) => copy_attributes(&insert.attributes),
        _ => Vec::new(),
    };
    attributes.push(attribute);
    reattribute(entity, attributes)
}

/// The block reference with an attribute in the place of another.
pub fn with_attribute_at(entity: &EntityType, slot: usize, attribute: AttributeRecord) -> (result:
    EntityType)
    requires
        entity.data matches EntityData::Insert(insert) && slot < insert.attributes@.len(),
    ensures
        entity.data matches EntityData::Insert(insert) && reattributed(
            *entity,
            result,
            insert.attributes@.update(slot as int, attribute),
        ),
{
    let mut attributes: Vec<AttributeRecord> = match &entity.data {
        EntityData::Insert(insert) => copy_attributes(&insert.attributes),
        _ => Vec::new(),
    };
    attributes.set(slot, attribute);
    reattribute(entity, attributes)
}

/// The block reference without an attribute.
#[verifier::loop_isolation(false)]
pub fn without_attribute(entity: &EntityType, handle: Handle) -> (result: EntityType)
    requires
        entity.data is Insert,
    ensures
        entity.data matches EntityData::Insert(insert) && reattributed(
            *entity,
            result,
            passing(insert.attributes@, attribute_other_than(handle)),
        ),
{
    let mut kept: Vec<AttributeRecord> = Vec::new();
    if let EntityData::Insert(insert) = &entity.data {
        let attributes: &Vec<AttributeRecord> = &insert.attributes;
        let mut i: usize = 0;
        while i < attributes.len()
            invariant
                i <= attributes.len(),
                kept@ == passing(attributes@.take(i as int), attribute_other_than(handle)),
            decreases attributes.len() - i,
        {
            proof {
                assert(attributes@.take(i + 1).drop_last() =~= attributes@.take(i as int));
            }
            if attributes[i].common.handle != handle {
                kept.push(attributes[i].copy());
            }
            i = i + 1;
        }
        proof {
            assert(attributes@.take(i as int) =~= attributes@);
        }
    }
    reattribute(entity, kept)
}

impl CadDocument {
    /// The attribute with a handle, in the first block reference that stores one.
    pub fn nested_attribute(&self, handle: Handle) -> (result: Option<&AttributeRecord>)
        ensures
            crate::search::item(result) == nested(self@, handle),
    {
        let mut i: usize = 0;
        while i < self.entities.len()
            invariant
                i <= self.entities.len(),
                seek(self.entities@, 0, stores(handle)) == seek(
                    self.entities@,
                    i as int,
                    stores(handle),
                ),
            decreases self.entities.len() - i,
        {
            if let EntityData::Insert(insert) = &self.entities[i].data {
                if let Some(slot) = find_attribute(&insert.attributes, handle) {
                    return Some(&insert.attributes[slot]);
                }
            }
            i = i + 1;
        }
        None
    }

    /// An entity as scripts see it.
    pub fn host_model_entity(&self, handle: Handle) -> (result: Option<EntityType>)
        ensures
            result == model_entity(self@, handle),
    {
        match self.get_entity(handle) {
            Some(entity) => Some(entity.copy()),
            None => match self.nested_attribute(handle) {
                Some(attribute) => Some(attribute.to_entity()),
                None => None,
            },
        }
    }
}

/// An attribute that took the place of another reads back, where no entity of the
/// drawing and no other block reference has its handle.
pub proof fn replaced_attribute_reads_back(
    before: DocumentView,
    after: DocumentView,
    attribute: AttributeRecord,
)
    requires
        attribute_replaced(before, after, attribute),
        before.entity(attribute.common.handle) is None,
        forall|i: int|
            0 <= i < before.entities.len() && stores(attribute.common.handle)(
                #[trigger] before.entities[i],
            ) ==> Some(i) == before.entity_place(attribute.common.owner_handle),
    ensures
        model_entity(after, attribute.common.handle) == Some(attribute.as_entity()),
{
    let owner = attribute.common.owner_handle;
    let handle = attribute.common.handle;
    let insert = owning_insert(before, owner)->Some_0;
    let slot = attribute_slot(before, owner, handle)->Some_0;
    let attributes = insert.attributes@.update(slot, attribute);
    let changed = choose|changed: EntityType| #[trigger]
        entity_replaced(before, after, changed) && (before.entity(owner) matches Some(found)
            && reattributed(found, changed, attributes));
    let place = before.entity_place(owner)->Some_0;
    seek_back_finds(before.entities, before.entities.len() as int, entity_with(owner));
    seek_back_finds(before.entities, before.entities.len() as int, entity_with(handle));
    seek_back_finds(after.entities, after.entities.len() as int, entity_with(handle));
    if let Some(i) = after.entity_place(handle) {
        assert(entity_with(handle)(after.entities[i]));
        assert(entity_with(handle)(before.entities[i]));
    }
    seek_finds(insert.attributes@, 0, attribute_with(handle));
    seek_finds(attributes, 0, attribute_with(handle));
    assert(attribute_with(handle)(attributes[slot]));
    assert forall|j: int| 0 <= j < slot implies !attribute_with(handle)(#[trigger] attributes[j]) by {
        assert(attributes[j] == insert.attributes@[j]);
    }
    assert(after.entities[place] == changed);
    assert(attribute_in(changed, handle) == Some(attribute));
    seek_finds(after.entities, 0, stores(handle));
    assert(stores(handle)(after.entities[place]));
    let found = seek(after.entities, 0, stores(handle))->Some_0;
    if found != place {
        assert(after.entities[found] == before.entities[found]);
        assert(stores(handle)(before.entities[found]));
    }
}

} // verus!
