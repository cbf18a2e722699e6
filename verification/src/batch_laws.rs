//! Which names are bound to what, and which batches of edits are accepted.

use crate::attributes::{attribute_slot, attribute_with, model_entity};
use crate::binding::{binding_fault, binds, current_definition};
use crate::document::DocumentView;
use crate::entities::{AttributeEntity, EntityType, MLine, Shape, Tolerance};
use crate::geometry::Handle;
use crate::mutation_rules::mutation_fault;
use crate::plain::{all_checks_pass, text_in_plain_terms, written};
use crate::records::{spelled, DimStyle, TextStyle};
use crate::reference_laws::{first_called, open_end};
use crate::reference_rules::{defines_tag, mline_style, reference_fault};
use crate::scene::locked;
use crate::scripting::Scripted;
use crate::search::{seek, seek_finds};
use crate::studio::StudioView;
use crate::text::{alike, trimmed};
use crate::transaction::{bound, has_room, member_checks, settled, transaction_outcome};
use vstd::prelude::*;
use vstd::string::*;

verus! {

/// The first dimension style of the drawing with the name.
pub open spec fn first_dim_called(doc: DocumentView, name: Seq<char>, i: int) -> bool {
    &&& 0 <= i < doc.dim_styles.len()
    &&& alike(doc.dim_styles[i].name@, trimmed(name))
    &&& forall|j: int| 0 <= j < i ==> !alike((#[trigger] doc.dim_styles[j]).name@, trimmed(name))
}

/// A tolerance frame without a style gets the first dimension style with its name, and
/// stays without one where there is none. Nothing else of it changes.
pub proof fn tolerance_is_bound_by_name(doc: DocumentView, before: EntityType, after: EntityType)
    requires
        binds(doc, before, after),
        before.data is Tolerance,
    ensures
        after.common == before.common,
        after.record == before.record,
        after.data is Tolerance,
        ({
            let value = before.data->Tolerance_0;
            let new = after.data->Tolerance_0;
            let name = value.dimension_style_name@;
            &&& *new == (Tolerance { dimension_style_handle: new.dimension_style_handle, ..*value })
            &&& !open_end(value.dimension_style_handle) ==> new.dimension_style_handle
                == value.dimension_style_handle
            &&& forall|i: int| #[trigger]
                first_dim_called(doc, name, i) && open_end(value.dimension_style_handle)
                    ==> new.dimension_style_handle == Some(doc.dim_styles[i].handle)
            &&& open_end(value.dimension_style_handle) && (forall|i: int| !#[trigger]
                first_dim_called(doc, name, i)) ==> new.dimension_style_handle is None
        }),
{
    let value = before.data->Tolerance_0;
    let name = value.dimension_style_name@;
    let test = spelled::<DimStyle>(trimmed(name));
    seek_finds(doc.dim_styles, 0, test);
    if seek(doc.dim_styles, 0, test) is Some {
        let k = seek(doc.dim_styles, 0, test)->Some_0;
        assert(test(doc.dim_styles[k]));
        assert forall|j: int| 0 <= j < k implies !alike(
            (#[trigger] doc.dim_styles[j]).name@,
            trimmed(name),
        ) by {
            assert(!test(doc.dim_styles[j]));
        }
        assert(first_dim_called(doc, name, k));
        assert forall|i: int| #[trigger] first_dim_called(doc, name, i) implies i == k by {
            if k < i {
                assert(!alike(doc.dim_styles[k].name@, trimmed(name)));
            } else if i < k {
                assert(!test(doc.dim_styles[i]));
            }
        }
    } else {
        assert forall|i: int| !#[trigger] first_dim_called(doc, name, i) by {
            if 0 <= i < doc.dim_styles.len() {
                assert(!test(doc.dim_styles[i]));
            }
        }
    }
}

/// A shape without a style gets the first text style with its name, and stays without
/// one where there is none. Nothing else of it changes.
pub proof fn shape_is_bound_by_name(doc: DocumentView, before: EntityType, after: EntityType)
    requires
        binds(doc, before, after),
        before.data is Shape,
    ensures
        after.common == before.common,
        after.record == before.record,
        after.data is Shape,
        ({
            let value = before.data->Shape_0;
            let new = after.data->Shape_0;
            let name = value.style_name@;
            &&& *new == (Shape { style_handle: new.style_handle, ..*value })
            &&& !open_end(value.style_handle) ==> new.style_handle == value.style_handle
            &&& forall|i: int| #[trigger]
                first_called(doc, name, i) && open_end(value.style_handle) ==> new.style_handle
                    == Some(doc.text_styles[i].handle)
            &&& open_end(value.style_handle) && (forall|i: int| !#[trigger]
                first_called(doc, name, i)) ==> new.style_handle is None
        }),
{
    let value = before.data->Shape_0;
    let name = value.style_name@;
    let test = spelled::<TextStyle>(trimmed(name));
    seek_finds(doc.text_styles, 0, test);
    if seek(doc.text_styles, 0, test) is Some {
        let k = seek(doc.text_styles, 0, test)->Some_0;
        assert(test(doc.text_styles[k]));
        assert forall|j: int| 0 <= j < k implies !alike(
            (#[trigger] doc.text_styles[j]).name@,
            trimmed(name),
        ) by {
            assert(!test(doc.text_styles[j]));
        }
        assert(first_called(doc, name, k));
        assert forall|i: int| #[trigger] first_called(doc, name, i) implies i == k by {
            if k < i {
                assert(!alike(doc.text_styles[k].name@, trimmed(name)));
            } else if i < k {
                assert(!test(doc.text_styles[i]));
            }
        }
    } else {
        assert forall|i: int| !#[trigger] first_called(doc, name, i) by {
            if 0 <= i < doc.text_styles.len() {
                assert(!test(doc.text_styles[i]));
            }
        }
    }
}

/// A multiline without a style gets the handle of the style that it is drawn with, and
/// stays without one where there is none. Nothing else of it changes.
pub proof fn mline_is_bound_by_name(doc: DocumentView, before: EntityType, after: EntityType)
    requires
        binds(doc, before, after),
        before.data is MLine,
    ensures
        after.common == before.common,
        after.record == before.record,
        after.data is MLine,
        ({
            let value = before.data->MLine_0;
            let new = after.data->MLine_0;
            &&& *new == (MLine { style_handle: new.style_handle, ..*value })
            &&& !open_end(value.style_handle) ==> new.style_handle == value.style_handle
            &&& open_end(value.style_handle) && mline_style(doc, *value) is Some
                ==> new.style_handle == Some(mline_style(doc, *value)->Some_0.handle)
            &&& open_end(value.style_handle) && mline_style(doc, *value) is None
                ==> new.style_handle is None
        }),
{
}

/// Any entity that names nothing is bound as it is.
pub proof fn other_entities_are_bound_as_they_are(
    doc: DocumentView,
    before: EntityType,
    after: EntityType,
)
    requires
        binds(doc, before, after),
        !(before.data is Tolerance || before.data is Shape || before.data is MLine
            || before.data is AttributeEntity),
    ensures
        after.common == before.common,
        after.record == before.record,
        after.data == before.data,
        binding_fault(doc, before, after) == reference_fault(doc, after),
{
}

/// The entity is an attribute definition of the drawing with the tag.
pub open spec fn model_for(doc: DocumentView, handle: Handle, tag: Seq<char>) -> bool {
    let found = doc.entity(handle);
    &&& found is Some && found->Some_0.data is AttributeDefinition
    &&& alike(found->Some_0.data->AttributeDefinition_0.text.tag@, trimmed(tag))
}

/// An attribute keeps its definition where that stands in the block of its owner and
/// has its tag. Otherwise it gets the first one there that has, and is refused where
/// there is none. Nothing else of it changes.
pub proof fn attribute_is_bound_by_tag(doc: DocumentView, before: EntityType, after: EntityType)
    requires
        binds(doc, before, after),
        before.data is AttributeEntity,
    ensures
        after.common == before.common,
        after.record == before.record,
        after.data is AttributeEntity,
        ({
            let value = before.data->AttributeEntity_0;
            let new = after.data->AttributeEntity_0;
            let tag = value.text.tag@;
            let owner = doc.entity(before.common.owner_handle);
            let name = trimmed(owner->Some_0.data->Insert_0.block_name@);
            let handles = doc.block(name)->Some_0.entity_handles@;
            let housed = owner is Some && owner->Some_0.data is Insert && doc.block(name) is Some;
            let held = handles.contains(value.attdef_handle) && model_for(
                doc,
                value.attdef_handle,
                tag,
            );
            &&& *new == (AttributeEntity { attdef_handle: new.attdef_handle, ..*value })
            &&& !housed ==> new.attdef_handle == value.attdef_handle && binding_fault(
                doc,
                before,
                after,
            ) is Some
            &&& housed && held ==> new.attdef_handle == value.attdef_handle
            &&& forall|i: int|
                #![trigger handles[i]]
                housed && !held && 0 <= i < handles.len() && model_for(doc, handles[i], tag) && (
                forall|j: int| 0 <= j < i ==> !model_for(doc, #[trigger] handles[j], tag))
                    ==> new.attdef_handle == handles[i]
            &&& housed && (forall|i: int|
                0 <= i < handles.len() ==> !model_for(doc, #[trigger] handles[i], tag))
                ==> new.attdef_handle == value.attdef_handle && binding_fault(
                doc,
                before,
                after,
            ) is Some
            &&& housed && (exists|i: int|
                0 <= i < handles.len() && model_for(doc, #[trigger] handles[i], tag))
                ==> binding_fault(doc, before, after) == reference_fault(doc, after)
        }),
{
    let value = before.data->AttributeEntity_0;
    let tag = value.text.tag@;
    let owner = doc.entity(before.common.owner_handle);
    if owner is Some && owner->Some_0.data is Insert {
        let name = trimmed(owner->Some_0.data->Insert_0.block_name@);
        if doc.block(name) is Some {
            let handles = doc.block(name)->Some_0.entity_handles@;
            let test = defines_tag(doc, trimmed(tag));
            let current = current_definition(doc, value.attdef_handle, trimmed(tag));
            assert forall|handle: Handle| #[trigger] test(handle) == model_for(
                doc,
                handle,
                tag,
            ) by {}
            seek_finds(handles, 0, test);
            seek_finds(handles, 0, current);
            let held = handles.contains(value.attdef_handle) && model_for(
                doc,
                value.attdef_handle,
                tag,
            );
            if held {
                let i = choose|i: int| 0 <= i < handles.len() && handles[i] == value.attdef_handle;
                assert(test(handles[i]));
                assert(current(handles[i]));
            }
            if seek(handles, 0, current) is Some {
                let k = seek(handles, 0, current)->Some_0;
                assert(current(handles[k]));
                assert(handles.contains(handles[k]));
                assert(test(handles[k]));
                assert(model_for(doc, handles[k], tag));
            }
            if seek(handles, 0, test) is Some {
                let k = seek(handles, 0, test)->Some_0;
                assert(test(handles[k]));
                assert(model_for(doc, handles[k], tag));
                assert forall|i: int|
                    #![trigger handles[i]]
                    0 <= i < handles.len() && model_for(doc, handles[i], tag) && (forall|j: int|
                        0 <= j < i ==> !model_for(doc, #[trigger] handles[j], tag)) implies i
                    == k by {
                    assert(test(handles[i]));
                    if k < i {
                        assert(!model_for(doc, handles[k], tag));
                    }
                }
            } else {
                assert forall|i: int| 0 <= i < handles.len() implies !model_for(
                    doc,
                    #[trigger] handles[i],
                    tag,
                ) by {
                    assert(!test(handles[i]));
                }
            }
        }
    }
}

/// What an edit is held against is the stored entity, but for a handle that the script
/// left alone: there it is the handle that was bound.
pub proof fn edit_is_held_against_the_stored(
    existing: EntityType,
    given: EntityType,
    filled: EntityType,
)
    requires
        existing.data.kind() == given.data.kind(),
        existing.data.kind() == filled.data.kind(),
    ensures
        ({
            let base = settled(existing, given, filled);
            &&& base.common == existing.common
            &&& base.record == existing.record
            &&& !(existing.data is Tolerance || existing.data is Shape || existing.data is MLine
                || existing.data is AttributeEntity) ==> base.data == existing.data
            &&& existing.data is Tolerance ==> {
                let old_value = existing.data->Tolerance_0;
                let new = base.data->Tolerance_0;
                &&& base.data is Tolerance
                &&& *new == (Tolerance {
                    dimension_style_handle: new.dimension_style_handle,
                    ..*old_value
                })
                &&& new.dimension_style_handle == if old_value.dimension_style_handle
                    == given.data->Tolerance_0.dimension_style_handle {
                    filled.data->Tolerance_0.dimension_style_handle
                } else {
                    old_value.dimension_style_handle
                }
            }
            &&& existing.data is Shape ==> {
                let old_value = existing.data->Shape_0;
                let new = base.data->Shape_0;
                &&& base.data is Shape
                &&& *new == (Shape { style_handle: new.style_handle, ..*old_value })
                &&& new.style_handle == if old_value.style_handle
                    == given.data->Shape_0.style_handle {
                    filled.data->Shape_0.style_handle
                } else {
                    old_value.style_handle
                }
            }
            &&& existing.data is MLine ==> {
                let old_value = existing.data->MLine_0;
                let new = base.data->MLine_0;
                &&& base.data is MLine
                &&& *new == (MLine { style_handle: new.style_handle, ..*old_value })
                &&& new.style_handle == if old_value.style_handle
                    == given.data->MLine_0.style_handle {
                    filled.data->MLine_0.style_handle
                } else {
                    old_value.style_handle
                }
            }
            &&& existing.data is AttributeEntity ==> {
                let old_value = existing.data->AttributeEntity_0;
                let new = base.data->AttributeEntity_0;
                &&& base.data is AttributeEntity
                &&& *new == (AttributeEntity { attdef_handle: new.attdef_handle, ..*old_value })
                &&& new.attdef_handle == if old_value.attdef_handle
                    == given.data->AttributeEntity_0.attdef_handle {
                    filled.data->AttributeEntity_0.attdef_handle
                } else {
                    old_value.attdef_handle
                }
            }
        }),
{
}

/// One edit of a batch can be made: the drawing has the entity, of the same kind and
/// with the same owner, its names can be bound, the edit breaks no rule, the engine did
/// not refuse it, and neither it nor the block reference that owns it is on a locked
/// layer.
pub open spec fn edit_stands(doc: DocumentView, scripted: Scripted) -> bool {
    let entity = scripted.entity;
    let stored = model_entity(doc, entity.common.handle);
    &&& stored is Some
    &&& stored->Some_0.data.kind() == entity.data.kind()
    &&& stored->Some_0.common.owner_handle == entity.common.owner_handle
    &&& binding_fault(doc, entity, bound(doc, entity)) is None
    &&& mutation_fault(
        settled(stored->Some_0, entity, bound(doc, entity)),
        bound(doc, entity),
    ) is None
    &&& !(scripted.derived is Refused)
    &&& entity.data is AttributeEntity ==> !locked(doc, entity.common.owner_handle)
    &&& !(entity.data is AttributeEntity) ==> !locked(doc, entity.common.handle)
}

/// A batch is accepted exactly where it has a written label, names no entity twice and
/// none by the null handle, and each of its edits can be made. The names of each edit
/// are bound first. A refused batch is answered with a message.
pub proof fn batch_is_accepted<S, C>(
    before: StudioView<S, C>,
    after: StudioView<S, C>,
    tab: int,
    open: bool,
    label: Seq<char>,
    batch: Seq<Scripted>,
    result: Result<(), String>,
)
    requires
        transaction_outcome(before, after, tab, open, label, batch, result),
    ensures
        ({
            let doc = before.tabs[tab].scene.document;
            result is Ok <==> {
                &&& written(label)
                &&& forall|i: int|
                    0 <= i < batch.len() ==> (#[trigger] batch[i]).entity.common.handle.value != 0
                        && edit_stands(doc, batch[i])
                &&& forall|i: int, j: int|
                    0 <= i < j < batch.len() ==> (#[trigger] batch[i]).entity.common.handle.value
                        != (#[trigger] batch[j]).entity.common.handle.value
            }
        }),
        result is Err ==> after == before,
{
    let doc = before.tabs[tab].scene.document;
    let checks = member_checks(doc, batch);
    text_in_plain_terms();
    all_checks_pass(0, batch.len() as int, checks);
    assert forall|i: int| 0 <= i < batch.len() implies (#[trigger] checks(i) is None) == (
    batch[i].entity.common.handle.value != 0 && edit_stands(doc, batch[i])
        && !crate::transaction::comes_earlier(batch, i)) by {}
    if result is Ok {
        assert forall|i: int| 0 <= i < batch.len() implies (
        #[trigger] batch[i]).entity.common.handle.value != 0 && edit_stands(doc, batch[i]) by {
            assert(checks(i) is None);
        }
        assert forall|i: int, j: int| 0 <= i < j < batch.len() implies (
        #[trigger] batch[i]).entity.common.handle.value != (
        #[trigger] batch[j]).entity.common.handle.value by {
            assert(checks(j) is None);
            assert(!crate::transaction::comes_earlier(batch, j));
            if batch[i].entity.common.handle.value == batch[j].entity.common.handle.value {
                assert(batch[i].entity.common.handle == batch[j].entity.common.handle);
            }
        }
    }
    if written(label) && (forall|i: int|
        0 <= i < batch.len() ==> (#[trigger] batch[i]).entity.common.handle.value != 0
            && edit_stands(doc, batch[i])) && (forall|i: int, j: int|
        0 <= i < j < batch.len() ==> (#[trigger] batch[i]).entity.common.handle.value != (
        #[trigger] batch[j]).entity.common.handle.value) {
        assert forall|i: int| 0 <= i < batch.len() implies #[trigger] checks(i) is None by {
            assert(batch[i].entity.common.handle.value != 0);
            if crate::transaction::comes_earlier(batch, i) {
                let j = choose|j: int|
                    0 <= j < i && (#[trigger] batch[j]).entity.common.handle
                        == batch[i].entity.common.handle;
                assert(batch[j].entity.common.handle.value != batch[i].entity.common.handle.value);
            }
        }
    }
}

/// The entity of an edit with its names bound is bound as the drawing has it.
pub proof fn edits_are_bound(doc: DocumentView, entity: EntityType)
    ensures
        binds(doc, entity, bound(doc, entity)),
{
}

/// The block reference that an attribute names as its owner stores one with its handle.
pub open spec fn stored_by_its_owner(doc: DocumentView, entity: EntityType) -> bool {
    let owner = doc.entity(entity.common.owner_handle);
    &&& owner is Some
    &&& owner->Some_0.data is Insert
    &&& exists|k: int|
        0 <= k < owner->Some_0.data->Insert_0.attributes@.len() && (
        #[trigger] owner->Some_0.data->Insert_0.attributes@[k]).common.handle
            == entity.common.handle
}

/// A batch has room exactly where each attribute that it edits is stored by its owner
/// and there is a handle left for a layer of each edit.
pub proof fn batch_has_room(doc: DocumentView, batch: Seq<Scripted>)
    ensures
        has_room(doc, batch) <==> {
            &&& doc.next_handle + batch.len() <= u64::MAX
            &&& forall|i: int|
                0 <= i < batch.len() && (#[trigger] batch[i]).entity.data is AttributeEntity
                    ==> stored_by_its_owner(doc, batch[i].entity)
        },
{
    assert forall|i: int|
        0 <= i < batch.len() && (#[trigger] batch[i]).entity.data is AttributeEntity implies (
    attribute_slot(
        doc,
        batch[i].entity.common.owner_handle,
        batch[i].entity.common.handle,
    ) is Some) == stored_by_its_owner(doc, batch[i].entity) by {
        let entity = batch[i].entity;
        let owner = doc.entity(entity.common.owner_handle);
        if owner is Some && owner->Some_0.data is Insert {
            let list = owner->Some_0.data->Insert_0.attributes@;
            let test = attribute_with(entity.common.handle);
            seek_finds(list, 0, test);
            if stored_by_its_owner(doc, entity) {
                let k = choose|k: int|
                    0 <= k < list.len() && (
                    #[trigger] owner->Some_0.data->Insert_0.attributes@[k]).common.handle
                        == entity.common.handle;
                assert(test(list[k]));
            }
            if seek(list, 0, test) is Some {
                let k = seek(list, 0, test)->Some_0;
                assert(test(list[k]));
                assert(owner->Some_0.data->Insert_0.attributes@[k].common.handle
                    == entity.common.handle);
            }
        }
    }
}

} // verus!
