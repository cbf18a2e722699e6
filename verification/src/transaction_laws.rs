//! What holds of every transaction.

use crate::attributes::{
    attribute_in, attribute_slot, attribute_with, model_entity, owner_reattributed, reattributed,
    seen_in, stores,
};
use crate::binding::{binding_fault, mline_binding, shape_binding, tolerance_binding};
use crate::document::{entity_with, DocumentView};
use crate::entities::{
    AttributeRecord, EntityCommon, EntityData, EntityType, MLine, Shape, Tolerance,
};
use crate::geometry::Handle;
use crate::mutation_rules::{canvas, layer_edit_is_free};
use crate::reference_rules::owning_insert;
use crate::scene::{entity_replaced, locked, replaced_entity_reads_back};
use crate::scripting::{as_record, entity_applied, Scripted};
use crate::search::{pick, seek, seek_back_finds, seek_finds};
use crate::studio::{redone, undo_and_redo_are_inverse, undone, StudioView};
use crate::text::{blank, fault};
use crate::transaction::{
    all_applied, all_pass, applied_in_steps, attribute_handles, attribute_keeps_shape,
    attributes_at_home, bound, comes_earlier, fits_in, lock_holder, member_fault,
    passing_batch_fits, replacement, replacements, replacing_keeps_shape, same_shape, settled,
    shape_keeps_fit, shape_keeps_places, transacted, transaction_fault, transaction_outcome,
};
use vstd::prelude::*;
use vstd::string::*;

verus! {

/// Moving a stored entity to another layer is accepted, whatever else it holds:
/// what it refers to is in the drawing, its layer is not locked and the engine
/// does not refuse it. A handle that was never filled in does not stand in the
/// way.
pub proof fn layer_move_is_accepted(doc: DocumentView, existing: EntityType, scripted: Scripted)
    requires
        model_entity(doc, scripted.entity.common.handle) == Some(existing),
        scripted.entity == (EntityType {
            common: EntityCommon {
                layer: scripted.entity.common.layer,
                ..existing.common
            },
            ..existing
        }),
        !blank(scripted.entity.common.layer@),
        canvas(existing.data.kind()),
        binding_fault(doc, existing, bound(doc, existing)) is None,
        !(scripted.derived is Refused),
        !locked(doc, lock_holder(existing)),
    ensures
        member_fault(doc, scripted) is None,
{
    let entity = scripted.entity;
    let after = bound(doc, entity);
    let stays = bound(doc, existing);
    assert(after.data == stays.data);
    assert(binding_fault(doc, entity, after) == binding_fault(doc, existing, stays));
    let start = settled(existing, entity, after);
    assert(after == (EntityType {
        common: EntityCommon { layer: after.common.layer, ..start.common },
        ..start
    }));
    layer_edit_is_free(start, after);
}

/// What stands in the drawing after a transaction is what the script gave. A
/// reference that it left open is filled in from the drawing. The engine changes
/// nothing that was checked: a multiline keeps its style, its scale and the places
/// of its vertices and is only cut anew, and a dimension, a helix and a table keep
/// every field that the host reads.
pub proof fn stored_entity_is_what_was_given(
    doc: DocumentView,
    scripted: Scripted,
    ready: EntityType,
)
    requires
        replacement(doc, scripted, ready),
        scripted.answered(),
    ensures
        ready.common == scripted.entity.common,
        scripted.entity.data matches EntityData::MLine(given) ==> (
        ready.data matches EntityData::MLine(kept) && *kept == (MLine {
            style_handle: mline_binding(doc, *given),
            vertices: kept.vertices,
            ..*given
        }) && kept.vertices@.len() == given.vertices@.len() && forall|i: int|
            0 <= i < given.vertices@.len() ==> (#[trigger] kept.vertices@[i]).position
                == given.vertices@[i].position),
        scripted.entity.data matches EntityData::Tolerance(given) ==> (
        ready.data matches EntityData::Tolerance(kept) && *kept == (Tolerance {
            dimension_style_handle: tolerance_binding(doc, *given),
            ..*given
        })),
        scripted.entity.data matches EntityData::Shape(given) ==> (
        ready.data matches EntityData::Shape(kept) && *kept == (Shape {
            style_handle: shape_binding(doc, *given),
            ..*given
        })),
        scripted.entity.data is Dimension || scripted.entity.data is Helix
            || scripted.entity.data is Table ==> ready.data == scripted.entity.data,
{
}

/// A refused batch changes nothing: neither the drawing, nor its history, nor the
/// selection. An empty one does not either, and it is refused only for a blank
/// label.
pub proof fn refused_batch_changes_nothing<S, C>(
    before: StudioView<S, C>,
    after: StudioView<S, C>,
    tab: int,
    open: bool,
    label: Seq<char>,
    batch: Seq<Scripted>,
    result: Result<(), String>,
)
    requires
        transaction_outcome(before, after, tab, open, label, batch, result),
    ensures
        result is Err || batch.len() == 0 ==> after == before,
        blank(label) ==> fault(result) == Some("transaction label is empty"@),
        batch.len() == 0 && !blank(label) ==> result is Ok,
{
}

/// Entities that fit keep the shape of a drawing, step by step.
proof fn steps_keep_shape(steps: Seq<DocumentView>, entities: Seq<EntityType>, count: int)
    requires
        applied_in_steps(steps, entities),
        0 <= count <= entities.len(),
        forall|i: int| 0 <= i < entities.len() ==> fits_in(steps[0], #[trigger] entities[i]),
    ensures
        same_shape(steps[0], steps[count]),
    decreases count,
{
    if count > 0 {
        steps_keep_shape(steps, entities, count - 1);
        let entity = entities[count - 1];
        shape_keeps_fit(steps[0], steps[count - 1], entity);
        assert(entity_applied(steps[count - 1], steps[count], entity));
        if entity.data is AttributeEntity {
            attribute_keeps_shape(steps[count - 1], steps[count], entity);
        } else {
            replacing_keeps_shape(steps[count - 1], steps[count], entity);
        }
    }
}

/// A step leaves alone every entity that it does not replace and whose
/// attributes it does not touch.
proof fn step_leaves_others(
    before: DocumentView,
    after: DocumentView,
    entity: EntityType,
    handle: Handle,
)
    requires
        fits_in(before, entity),
        entity_applied(before, after, entity),
        lock_holder(entity) != handle,
        before.entity(handle) is Some,
    ensures
        after.entity(handle) == before.entity(handle),
{
    seek_back_finds(before.entities, before.entities.len() as int, entity_with(handle));
    if entity.data is AttributeEntity {
        attribute_keeps_shape(before, after, entity);
        let owner = entity.common.owner_handle;
        let attribute = as_record(entity);
        let insert = owning_insert(before, owner)->Some_0;
        let slot = attribute_slot(before, owner, entity.common.handle)->Some_0;
        let attributes = insert.attributes@.update(slot, attribute);
        assert(owner_reattributed(before, after, owner, attributes));
        let changed = choose|changed: EntityType| #[trigger]
            entity_replaced(before, after, changed) && (before.entity(owner) matches Some(found)
                && reattributed(found, changed, attributes));
        seek_back_finds(before.entities, before.entities.len() as int, entity_with(owner));
    } else {
        replacing_keeps_shape(before, after, entity);
        seek_back_finds(
            before.entities,
            before.entities.len() as int,
            entity_with(entity.common.handle),
        );
    }
    shape_keeps_places(before, after, handle);
}

/// What a step put in its place is still there at the end.
proof fn later_steps_leave(
    steps: Seq<DocumentView>,
    entities: Seq<EntityType>,
    index: int,
    count: int,
)
    requires
        applied_in_steps(steps, entities),
        0 <= index < count <= entities.len(),
        forall|i: int| 0 <= i < entities.len() ==> fits_in(steps[0], #[trigger] entities[i]),
        forall|j: int|
            index < j < entities.len() ==> lock_holder(#[trigger] entities[j])
                != entities[index].common.handle,
        !(entities[index].data is AttributeEntity),
    ensures
        steps[count].entity(entities[index].common.handle) == Some(entities[index]),
    decreases count,
{
    let handle = entities[index].common.handle;
    steps_keep_shape(steps, entities, count - 1);
    let entity = entities[count - 1];
    shape_keeps_fit(steps[0], steps[count - 1], entity);
    assert(entity_applied(steps[count - 1], steps[count], entity));
    if count - 1 == index {
        replacing_keeps_shape(steps[index], steps[count], entity);
        shape_keeps_places(steps[index], steps[count], handle);
        seek_back_finds(
            steps[index].entities,
            steps[index].entities.len() as int,
            entity_with(handle),
        );
    } else {
        later_steps_leave(steps, entities, index, count - 1);
        step_leaves_others(steps[count - 1], steps[count], entity, handle);
    }
}

/// A transaction neither adds nor removes an entity, and none changes its handle
/// or its kind.
pub proof fn transaction_keeps_entities<S, C>(
    before: StudioView<S, C>,
    after: StudioView<S, C>,
    tab: int,
    open: bool,
    label: Seq<char>,
    batch: Seq<Scripted>,
)
    requires
        0 <= tab < before.tabs.len(),
        transacted(before, after, tab, open, label, batch),
        transaction_fault(before.tabs[tab].scene.document, label, batch) is None,
        attributes_at_home(before.tabs[tab].scene.document, batch),
        forall|i: int| 0 <= i < batch.len() ==> (#[trigger] batch[i]).answered(),
    ensures
        same_shape(before.tabs[tab].scene.document, after.tabs[tab].scene.document),
{
    let doc = before.tabs[tab].scene.document;
    let ready = choose|ready: Seq<EntityType>| #[trigger]
        replacements(doc, batch, ready) && all_applied(
            before.tabs[tab].scene,
            after.tabs[tab].scene,
            ready,
        );
    passing_batch_fits(doc, label, batch, ready);
    let steps = choose|steps: Seq<DocumentView>|
        {
            &&& #[trigger] applied_in_steps(steps, ready)
            &&& steps[0] == doc
            &&& after.tabs[tab].scene.document == steps.last()
        };
    steps_keep_shape(steps, ready, ready.len() as int);
}

/// No two members of a batch have the same handle.
pub open spec fn distinct(batch: Seq<Scripted>) -> bool {
    forall|i: int, j: int|
        0 <= i < j < batch.len() ==> (#[trigger] batch[i]).entity.common.handle != (
        #[trigger] batch[j]).entity.common.handle
}

/// A batch that passes its checks names every entity once.
pub proof fn accepted_batch_is_distinct(doc: DocumentView, label: Seq<char>, batch: Seq<Scripted>)
    requires
        transaction_fault(doc, label, batch) is None,
    ensures
        distinct(batch),
{
    assert forall|i: int, j: int| 0 <= i < j < batch.len() implies (
    #[trigger] batch[i]).entity.common.handle != (#[trigger] batch[j]).entity.common.handle by {
        all_pass(doc, batch, 0, j);
        assert(!comes_earlier(batch, j));
    }
}

/// An entity that a member replaces as a whole is in the drawing at the end,
/// where no attribute of its own comes behind it.
proof fn whole_member_is_stored(
    doc: DocumentView,
    batch: Seq<Scripted>,
    ready: Seq<EntityType>,
    steps: Seq<DocumentView>,
    index: int,
)
    requires
        distinct(batch),
        applied_in_steps(steps, ready),
        steps[0] == doc,
        forall|i: int| 0 <= i < ready.len() ==> fits_in(doc, #[trigger] ready[i]),
        paired(batch, ready),
        0 <= index < batch.len(),
        !(batch[index].entity.data is AttributeEntity),
        batch[index].entity.data is Insert ==> forall|j: int|
            index < j < batch.len() && (#[trigger] batch[j]).entity.data is AttributeEntity
                ==> batch[j].entity.common.owner_handle != batch[index].entity.common.handle,
    ensures
        steps.last().entity(batch[index].entity.common.handle) == Some(ready[index]),
{
    assert forall|j: int| index < j < ready.len() implies lock_holder(#[trigger] ready[j])
        != ready[index].common.handle by {
        assert(batch[index].entity.common.handle != batch[j].entity.common.handle);
        assert(fits_in(doc, ready[j]) && fits_in(doc, ready[index]));
        assert(ready[j].common == batch[j].entity.common);
        assert(ready[j].data.kind() == batch[j].entity.data.kind());
        assert(ready[index].common == batch[index].entity.common);
        assert(ready[index].data.kind() == batch[index].entity.data.kind());
        if ready[j].data is AttributeEntity && ready[j].common.owner_handle
            == ready[index].common.handle {
            let found = doc.entity(ready[index].common.handle)->Some_0;
            assert(found.data is Insert);
            assert(found.data.kind() is Insert);
            assert(ready[index].data.kind() is Insert);
            assert(batch[index].entity.data is Insert);
            assert(batch[j].entity.data is AttributeEntity);
        }
    }
    assert(ready[index].common == batch[index].entity.common);
    assert(ready[index].data.kind() == batch[index].entity.data.kind());
    later_steps_leave(steps, ready, index, ready.len() as int);
}

/// After a transaction each entity reads back as the batch gave it: bound to the
/// drawing, and with the fields that follow from others. A block reference does
/// unless an attribute of its own comes behind it in the batch.
pub proof fn transaction_reads_back<S, C>(
    before: StudioView<S, C>,
    after: StudioView<S, C>,
    tab: int,
    open: bool,
    label: Seq<char>,
    batch: Seq<Scripted>,
    index: int,
)
    requires
        0 <= tab < before.tabs.len(),
        transacted(before, after, tab, open, label, batch),
        transaction_fault(before.tabs[tab].scene.document, label, batch) is None,
        attributes_at_home(before.tabs[tab].scene.document, batch),
        forall|i: int| 0 <= i < batch.len() ==> (#[trigger] batch[i]).answered(),
        0 <= index < batch.len(),
        !(batch[index].entity.data is AttributeEntity),
        batch[index].entity.data is Insert ==> forall|j: int|
            index < j < batch.len() && (#[trigger] batch[j]).entity.data is AttributeEntity
                ==> batch[j].entity.common.owner_handle != batch[index].entity.common.handle,
    ensures
        after.tabs[tab].scene.document.entity(batch[index].entity.common.handle) matches Some(found)
            && replacement(before.tabs[tab].scene.document, batch[index], found),
{
    let doc = before.tabs[tab].scene.document;
    let ready = choose|ready: Seq<EntityType>| #[trigger]
        replacements(doc, batch, ready) && all_applied(
            before.tabs[tab].scene,
            after.tabs[tab].scene,
            ready,
        );
    passing_batch_fits(doc, label, batch, ready);
    let steps = choose|steps: Seq<DocumentView>|
        {
            &&& #[trigger] applied_in_steps(steps, ready)
            &&& steps[0] == doc
            &&& after.tabs[tab].scene.document == steps.last()
        };
    assert(paired(batch, ready));
    accepted_batch_is_distinct(doc, label, batch);
    whole_member_is_stored(doc, batch, ready, steps, index);
    assert(replacement(doc, batch[index], ready[index]));
}

/// The batch edits an attribute of a block reference.
pub open spec fn edits(batch: Seq<Scripted>, owner: Handle, attribute: Handle) -> bool {
    exists|j: int|
        0 <= j < batch.len() && (#[trigger] batch[j]).entity.data is AttributeEntity
            && batch[j].entity.common.owner_handle == owner && batch[j].entity.common.handle
            == attribute
}

/// The batch edits some attribute of a block reference.
pub open spec fn edits_within(batch: Seq<Scripted>, owner: Handle) -> bool {
    exists|j: int|
        0 <= j < batch.len() && (#[trigger] batch[j]).entity.data is AttributeEntity
            && batch[j].entity.common.owner_handle == owner
}

/// The batch replaces the entity with a handle.
pub open spec fn replaces_whole(batch: Seq<Scripted>, handle: Handle) -> bool {
    exists|j: int|
        0 <= j < batch.len() && !((#[trigger] batch[j]).entity.data is AttributeEntity)
            && batch[j].entity.common.handle == handle
}

/// An entity came through a batch: it is as it was. A block reference whose
/// attributes the batch edits may differ in those, and in nothing else.
pub open spec fn carried(batch: Seq<Scripted>, base: EntityType, found: EntityType) -> bool {
    ||| found == base
    ||| {
        &&& edits_within(batch, base.common.handle)
        &&& base.data matches EntityData::Insert(old_insert) && (found.data matches EntityData::Insert(
            insert,
        ) && {
            &&& reattributed(base, found, insert.attributes@)
            &&& insert.attributes@.len() == old_insert.attributes@.len()
            &&& forall|k: int|
                0 <= k < insert.attributes@.len() ==> (#[trigger] insert.attributes@[k])
                    == old_insert.attributes@[k] || edits(
                    batch,
                    base.common.handle,
                    insert.attributes@[k].common.handle,
                )
        })
    }
}

/// The attribute with a handle in the block reference that owns it.
pub open spec fn attribute_at(doc: DocumentView, owner: Handle, handle: Handle) -> Option<
    AttributeRecord,
> {
    match owning_insert(doc, owner) {
        Some(insert) => pick(insert.attributes@, attribute_with(handle)),
        None => None,
    }
}

/// The members of a batch and what they became have the same handles, owners and
/// kinds.
spec fn paired(batch: Seq<Scripted>, ready: Seq<EntityType>) -> bool {
    ready.len() == batch.len() && forall|i: int|
        0 <= i < ready.len() ==> (#[trigger] ready[i]).common == batch[i].entity.common
            && ready[i].data.kind() == batch[i].entity.data.kind()
}

/// The block reference after one of its attributes was replaced.
proof fn owner_after_step(before: DocumentView, after: DocumentView, entity: EntityType)
    requires
        entity.data is AttributeEntity,
        entity_applied(before, after, entity),
    ensures
        before.entity(entity.common.owner_handle) matches Some(base) && (after.entity(
            entity.common.owner_handle,
        ) matches Some(found) && (base.data matches EntityData::Insert(insert) && (attribute_slot(
            before,
            entity.common.owner_handle,
            entity.common.handle,
        ) matches Some(slot) && 0 <= slot < insert.attributes@.len() && reattributed(
            base,
            found,
            insert.attributes@.update(slot, as_record(entity)),
        )))),
{
    let owner = entity.common.owner_handle;
    let insert = owning_insert(before, owner)->Some_0;
    let slot = attribute_slot(before, owner, entity.common.handle)->Some_0;
    let attributes = insert.attributes@.update(slot, as_record(entity));
    assert(owner_reattributed(before, after, owner, attributes));
    let changed = choose|changed: EntityType| #[trigger]
        entity_replaced(before, after, changed) && (before.entity(owner) matches Some(found)
            && reattributed(found, changed, attributes));
    seek_back_finds(before.entities, before.entities.len() as int, entity_with(owner));
    seek_finds(insert.attributes@, 0, attribute_with(entity.common.handle));
    replaced_entity_reads_back(before, after, changed);
}

/// An entity that no member replaces comes through the steps.
proof fn steps_carry(
    steps: Seq<DocumentView>,
    ready: Seq<EntityType>,
    batch: Seq<Scripted>,
    handle: Handle,
    from: int,
    count: int,
)
    requires
        applied_in_steps(steps, ready),
        forall|i: int| 0 <= i < ready.len() ==> fits_in(steps[0], #[trigger] ready[i]),
        paired(batch, ready),
        0 <= from <= count <= ready.len(),
        steps[from].entity(handle) is Some,
        forall|j: int|
            from <= j < ready.len() ==> (#[trigger] ready[j]).data is AttributeEntity
                || ready[j].common.handle != handle,
    ensures
        steps[count].entity(handle) matches Some(found) && carried(
            batch,
            steps[from].entity(handle)->Some_0,
            found,
        ),
    decreases count,
{
    if from < count {
        steps_carry(steps, ready, batch, handle, from, count - 1);
        steps_keep_shape(steps, ready, count - 1);
        let entity = ready[count - 1];
        let before = steps[count - 1];
        let after = steps[count];
        shape_keeps_fit(steps[0], before, entity);
        assert(entity_applied(before, after, entity));
        let base = steps[from].entity(handle)->Some_0;
        seek_back_finds(
            steps[from].entities,
            steps[from].entities.len() as int,
            entity_with(handle),
        );
        if lock_holder(entity) != handle {
            step_leaves_others(before, after, entity, handle);
        } else {
            owner_after_step(before, after, entity);
            let middle = before.entity(handle)->Some_0;
            let found = after.entity(handle)->Some_0;
            assert(ready[count - 1].common == batch[count - 1].entity.common);
            assert(batch[count - 1].entity.data is AttributeEntity);
            assert(edits(batch, handle, entity.common.handle));
            assert(edits_within(batch, handle));
            let slot = attribute_slot(before, handle, entity.common.handle)->Some_0;
            if let EntityData::Insert(insert) = found.data {
                if let EntityData::Insert(old_insert) = base.data {
                    if let EntityData::Insert(between) = middle.data {
                        assert forall|k: int| 0 <= k < insert.attributes@.len() implies (
                        #[trigger] insert.attributes@[k]) == old_insert.attributes@[k] || edits(
                            batch,
                            handle,
                            insert.attributes@[k].common.handle,
                        ) by {
                            if k != slot {
                                assert(insert.attributes@[k] == between.attributes@[k]);
                            } else {
                                assert(insert.attributes@[k].common == entity.common);
                            }
                        }
                    }
                }
            }
        }
    }
}

/// A step leaves an attribute alone that it does not replace.
proof fn step_leaves_attribute(
    before: DocumentView,
    after: DocumentView,
    entity: EntityType,
    owner: Handle,
    handle: Handle,
)
    requires
        fits_in(before, entity),
        entity_applied(before, after, entity),
        before.entity(owner) is Some,
        if entity.data is AttributeEntity {
            entity.common.handle != handle
        } else {
            entity.common.handle != owner
        },
    ensures
        attribute_at(after, owner, handle) == attribute_at(before, owner, handle),
{
    if lock_holder(entity) != owner {
        step_leaves_others(before, after, entity, owner);
    } else {
        owner_after_step(before, after, entity);
        let old_list = owning_insert(before, owner)->Some_0.attributes@;
        let new_list = owning_insert(after, owner)->Some_0.attributes@;
        let slot = attribute_slot(before, owner, entity.common.handle)->Some_0;
        let test = attribute_with(handle);
        seek_finds(old_list, 0, attribute_with(entity.common.handle));
        seek_finds(old_list, 0, test);
        seek_finds(new_list, 0, test);
        assert(!test(old_list[slot]) && !test(new_list[slot]));
        if let Some(k) = seek(old_list, 0, test) {
            assert(test(new_list[k]));
        }
        if let Some(k) = seek(new_list, 0, test) {
            assert(test(old_list[k]));
        }
    }
}

/// An attribute that a member put in its place is there at the end.
proof fn steps_keep_attribute(
    steps: Seq<DocumentView>,
    ready: Seq<EntityType>,
    index: int,
    count: int,
)
    requires
        applied_in_steps(steps, ready),
        forall|i: int| 0 <= i < ready.len() ==> fits_in(steps[0], #[trigger] ready[i]),
        0 <= index < count <= ready.len(),
        ready[index].data is AttributeEntity,
        forall|j: int|
            index < j < ready.len() ==> (#[trigger] ready[j]).common.handle
                != ready[index].common.handle && (ready[j].data is AttributeEntity
                || ready[j].common.handle != ready[index].common.owner_handle),
    ensures
        attribute_at(
            steps[count],
            ready[index].common.owner_handle,
            ready[index].common.handle,
        ) == Some(as_record(ready[index])),
    decreases count,
{
    let owner = ready[index].common.owner_handle;
    let handle = ready[index].common.handle;
    let entity = ready[count - 1];
    let before = steps[count - 1];
    let after = steps[count];
    steps_keep_shape(steps, ready, count - 1);
    shape_keeps_fit(steps[0], before, entity);
    assert(entity_applied(before, after, entity));
    if count - 1 == index {
        owner_after_step(before, after, entity);
        let old_list = owning_insert(before, owner)->Some_0.attributes@;
        let new_list = owning_insert(after, owner)->Some_0.attributes@;
        let slot = attribute_slot(before, owner, handle)->Some_0;
        let test = attribute_with(handle);
        seek_finds(old_list, 0, test);
        seek_finds(new_list, 0, test);
        assert(test(new_list[slot]));
        let found = seek(new_list, 0, test)->Some_0;
        if found < slot {
            assert(test(old_list[found]));
        }
    } else {
        steps_keep_attribute(steps, ready, index, count - 1);
        step_leaves_attribute(before, after, entity, owner, handle);
    }
}

/// Block references with the same attribute handles store the same attributes.
proof fn handles_tell_stored(a: EntityType, b: EntityType, handle: Handle)
    requires
        attribute_handles(a) == attribute_handles(b),
        a.data.kind() == b.data.kind(),
    ensures
        attribute_in(a, handle) is Some <==> attribute_in(b, handle) is Some,
{
    let test = attribute_with(handle);
    if let EntityData::Insert(left) = a.data {
        if let EntityData::Insert(right) = b.data {
            seek_finds(left.attributes@, 0, test);
            seek_finds(right.attributes@, 0, test);
            assert(attribute_handles(a).len() == left.attributes@.len());
            assert(attribute_handles(b).len() == right.attributes@.len());
            if let Some(k) = seek(left.attributes@, 0, test) {
                assert(attribute_handles(a)[k] == handle);
                assert(attribute_handles(b)[k] == handle);
                assert(test(right.attributes@[k]));
            }
            if let Some(k) = seek(right.attributes@, 0, test) {
                assert(attribute_handles(b)[k] == handle);
                assert(attribute_handles(a)[k] == handle);
                assert(test(left.attributes@[k]));
            }
        }
    }
}

/// In a drawing of the same shape as one where scripts see the attribute, an
/// attribute in the block reference that owns it is what scripts see.
proof fn stored_attribute_is_seen(
    before: DocumentView,
    after: DocumentView,
    owner: Handle,
    attribute: AttributeRecord,
)
    requires
        seen_in(before, owner, attribute.common.handle),
        same_shape(before, after),
        attribute_at(after, owner, attribute.common.handle) == Some(attribute),
    ensures
        model_entity(after, attribute.common.handle) == Some(attribute.as_entity()),
{
    let handle = attribute.common.handle;
    let i = after.entity_place(owner)->Some_0;
    seek_back_finds(after.entities, after.entities.len() as int, entity_with(owner));
    assert(attribute_in(after.entities[i], handle) == Some(attribute));
    shape_keeps_places(before, after, owner);
    shape_keeps_places(before, after, handle);
    seek_finds(after.entities, 0, stores(handle));
    assert(stores(handle)(after.entities[i]));
    let j = seek(after.entities, 0, stores(handle))->Some_0;
    if j < i {
        assert(before.entities[j].common.handle == after.entities[j].common.handle);
        handles_tell_stored(before.entities[j], after.entities[j], handle);
        assert(stores(handle)(before.entities[j]));
        seek_finds(before.entities, 0, stores(handle));
    }
}

/// What a transaction stores. Each member reads back, bound and normalized, under
/// its handle, and an attribute in its block reference. Every other entity is as
/// it was. A block reference is to come before those of its attributes that the
/// batch edits; it then reads back with them. The drawing is changed since it was
/// saved, and one step undoes and redoes the whole batch.
pub proof fn transaction_stores_the_batch<S, C>(
    before: StudioView<S, C>,
    after: StudioView<S, C>,
    tab: int,
    open: bool,
    label: Seq<char>,
    batch: Seq<Scripted>,
)
    requires
        0 <= tab < before.tabs.len(),
        forall|i: int|
            0 <= i < batch.len() && (#[trigger] batch[i]).entity.data is AttributeEntity ==> seen_in(
                before.tabs[tab].scene.document,
                batch[i].entity.common.owner_handle,
                batch[i].entity.common.handle,
            ),
        transacted(before, after, tab, open, label, batch),
        transaction_fault(before.tabs[tab].scene.document, label, batch) is None,
        attributes_at_home(before.tabs[tab].scene.document, batch),
        forall|i: int| 0 <= i < batch.len() ==> (#[trigger] batch[i]).answered(),
        forall|i: int, j: int|
            0 <= i < j < batch.len() && (#[trigger] batch[i]).entity.data is AttributeEntity
                && !((#[trigger] batch[j]).entity.data is AttributeEntity)
                ==> batch[i].entity.common.owner_handle != batch[j].entity.common.handle,
    ensures
        forall|i: int|
            0 <= i < batch.len() ==> (model_entity(
                after.tabs[tab].scene.document,
                (#[trigger] batch[i]).entity.common.handle,
            ) matches Some(found) && exists|ready: EntityType| #[trigger]
                replacement(before.tabs[tab].scene.document, batch[i], ready) && carried(
                    batch,
                    ready,
                    found,
                )),
        forall|handle: Handle|
            #![trigger after.tabs[tab].scene.document.entity(handle)]
            before.tabs[tab].scene.document.entity(handle) is Some && !replaces_whole(batch, handle)
                ==> (after.tabs[tab].scene.document.entity(handle) matches Some(found) && carried(
                batch,
                before.tabs[tab].scene.document.entity(handle)->Some_0,
                found,
            )),
        after.tabs[tab].dirty,
        after.tabs[tab].undo.len() == before.tabs[tab].undo.len() + 1,
        undone(after.tabs[tab]).scene.document == before.tabs[tab].scene.document,
        redone(undone(after.tabs[tab])).scene.document == after.tabs[tab].scene.document,
{
    let doc = before.tabs[tab].scene.document;
    let end = after.tabs[tab].scene.document;
    transaction_undoes_in_one_step(before, after, tab, open, label, batch);
    let ready = choose|ready: Seq<EntityType>| #[trigger]
        replacements(doc, batch, ready) && all_applied(
            before.tabs[tab].scene,
            after.tabs[tab].scene,
            ready,
        );
    passing_batch_fits(doc, label, batch, ready);
    let steps = choose|steps: Seq<DocumentView>|
        {
            &&& #[trigger] applied_in_steps(steps, ready)
            &&& steps[0] == doc
            &&& end == steps.last()
        };
    let count = ready.len() as int;
    assert(paired(batch, ready));
    accepted_batch_is_distinct(doc, label, batch);
    steps_keep_shape(steps, ready, count);
    assert forall|i: int| 0 <= i < batch.len() implies (model_entity(
        end,
        (#[trigger] batch[i]).entity.common.handle,
    ) matches Some(found) && exists|made: EntityType| #[trigger]
        replacement(doc, batch[i], made) && carried(batch, made, found)) by {
        member_is_stored(doc, batch, ready, steps, i);
        assert(replacement(doc, batch[i], ready[i]));
    }
    assert forall|handle: Handle|
        #![trigger end.entity(handle)]
        doc.entity(handle) is Some && !replaces_whole(batch, handle) implies (end.entity(
        handle,
    ) matches Some(found) && carried(batch, doc.entity(handle)->Some_0, found)) by {
        assert forall|j: int| 0 <= j < ready.len() implies (#[trigger] ready[j]).data
            is AttributeEntity || ready[j].common.handle != handle by {
            assert(ready[j].common == batch[j].entity.common);
            assert(ready[j].data.kind() == batch[j].entity.data.kind());
            assert(ready[j].data is AttributeEntity <==> batch[j].entity.data is AttributeEntity);
        }
        steps_carry(steps, ready, batch, handle, 0, count);
    }
}

/// A member of a batch is in the drawing at the end.
proof fn member_is_stored(
    doc: DocumentView,
    batch: Seq<Scripted>,
    ready: Seq<EntityType>,
    steps: Seq<DocumentView>,
    index: int,
)
    requires
        batch[index].entity.data is AttributeEntity ==> seen_in(
            doc,
            batch[index].entity.common.owner_handle,
            batch[index].entity.common.handle,
        ),
        distinct(batch),
        applied_in_steps(steps, ready),
        steps[0] == doc,
        forall|i: int| 0 <= i < ready.len() ==> fits_in(doc, #[trigger] ready[i]),
        paired(batch, ready),
        same_shape(doc, steps.last()),
        forall|i: int, j: int|
            0 <= i < j < batch.len() && (#[trigger] batch[i]).entity.data is AttributeEntity
                && !((#[trigger] batch[j]).entity.data is AttributeEntity)
                ==> batch[i].entity.common.owner_handle != batch[j].entity.common.handle,
        0 <= index < batch.len(),
    ensures
        model_entity(steps.last(), batch[index].entity.common.handle) matches Some(found)
            && carried(batch, ready[index], found),
{
    let count = ready.len() as int;
    let handle = ready[index].common.handle;
    let entity = ready[index];
    assert(entity.common == batch[index].entity.common);
    assert(entity.data.kind() == batch[index].entity.data.kind());
    assert forall|j: int| index < j < ready.len() implies (#[trigger] ready[j]).common.handle
        != handle && (ready[j].data is AttributeEntity <==> batch[j].entity.data
        is AttributeEntity) by {
        assert(batch[index].entity.common.handle != batch[j].entity.common.handle);
        assert(ready[j].common == batch[j].entity.common);
        assert(ready[j].data.kind() == batch[j].entity.data.kind());
    }
    if entity.data is AttributeEntity {
        assert(batch[index].entity.data is AttributeEntity);
        assert forall|j: int| index < j < ready.len() implies (#[trigger] ready[j]).data
            is AttributeEntity || ready[j].common.handle != entity.common.owner_handle by {
            assert(ready[j].common == batch[j].entity.common);
            assert(ready[j].common.handle != handle);
        }
        steps_keep_attribute(steps, ready, index, count);
        stored_attribute_is_seen(
            doc,
            steps.last(),
            entity.common.owner_handle,
            as_record(entity),
        );
        assert(as_record(entity).as_entity() == entity);
    } else {
        let here = steps[index];
        let next = steps[index + 1];
        steps_keep_shape(steps, ready, index);
        shape_keeps_fit(doc, here, entity);
        assert(entity_applied(here, next, entity));
        replaced_entity_reads_back(here, next, entity);
        steps_carry(steps, ready, batch, handle, index + 1, count);
    }
}

/// A transaction is undone in one step.
pub proof fn transaction_undoes_in_one_step<S, C>(
    before: StudioView<S, C>,
    after: StudioView<S, C>,
    tab: int,
    open: bool,
    label: Seq<char>,
    batch: Seq<Scripted>,
)
    requires
        0 <= tab < before.tabs.len(),
        transacted(before, after, tab, open, label, batch),
    ensures
        after.tabs[tab].undo.len() == before.tabs[tab].undo.len() + 1,
        undone(after.tabs[tab]).scene.document == before.tabs[tab].scene.document,
        undone(after.tabs[tab]).undo == before.tabs[tab].undo,
        redone(undone(after.tabs[tab])).scene.document == after.tabs[tab].scene.document,
{
    undo_and_redo_are_inverse(before.tabs[tab], after.tabs[tab], after.tabs[tab], label);
}

} // verus!
