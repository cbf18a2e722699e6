//! What a script gets that adds, replaces or removes entities.

use crate::document::{DocumentView, ObjectType};
use crate::entities::{EntityType, RasterImage};
use crate::geometry::Handle;
use crate::images::{
    image_added, image_definition, image_definition_of, image_fault, image_prepared,
    preparing_keeps_entities, ImageFile,
};
use crate::normal_laws::{
    attached_attribute_comes_last, attributes_at, first_attribute, one_insert_changed,
    replaced_attribute_takes_the_place,
};
use crate::normalize::normalized;
use crate::plain::bounded;
use crate::reference_laws::open_end;
use crate::scene::{added_entity_reads_back, entity_added, entity_placed, layer_registered};
use crate::scene_laws::{added_entity_joins_its_block, replaced_entity_takes_the_place};
use crate::scripting::{
    added, added_in_steps, all_added, all_ready, announced, batch_added, made_ready, ready_in_steps,
    replaces, updated, Scripted,
};
use crate::search::{seek, seek_finds};
use crate::session_laws::{announcing_replaces_the_drawing, view_told};
use crate::studio::StudioView;
use vstd::arithmetic::power2::pow2;
use vstd::prelude::*;
use vstd::string::*;

verus! {

/// The entity is of a kind of which no field follows from others, and no attribute.
pub open spec fn self_contained(entity: EntityType) -> bool {
    !(entity.data is RasterImage || entity.data is Viewport || entity.data is SectionSymbol
        || entity.data is Spline || entity.data is MLine || entity.data is AttributeEntity)
}

/// The record of an entity: the one that was derived, or else its own.
pub open spec fn record_of(scripted: Scripted, entity: EntityType) -> bool {
    entity.record == if scripted.derived is Record {
        scripted.derived->Record_0
    } else {
        scripted.entity.record
    }
}

/// An entity that a script adds is in the drawing under the handle that the script
/// gets, as it was given. The entities that were there stay, the geometry counts as
/// changed, and the application is told. An entity that the engine refuses changes
/// nothing, and the script gets the null handle.
pub proof fn scripted_entity_is_added<S, C>(
    before: StudioView<S, C>,
    after: StudioView<S, C>,
    tab: int,
    open: bool,
    scripted: Scripted,
    result: Handle,
)
    requires
        0 <= tab < before.tabs.len(),
        before.tabs[tab].scene.document.spare(4),
        before.tabs[tab].scene.document.next_handle > 0,
        scripted.entity.common.handle.value < u64::MAX,
        self_contained(scripted.entity),
        added(before, after, tab, open, scripted, result),
    ensures
        scripted.derived is Refused ==> result.value == 0 && after == before,
        !(scripted.derived is Refused) ==> {
            let doc = before.tabs[tab].scene.document;
            let end = after.tabs[tab].scene.document;
            let entity = end.entities.last();
            &&& result.value != 0
            &&& end.entity(result) == Some(entity)
            &&& entity.common.handle == result
            &&& entity.data == scripted.entity.data
            &&& record_of(scripted, entity)
            &&& entity.common.layer == scripted.entity.common.layer
            &&& entity.common.look == scripted.entity.common.look
            &&& entity.common.extended_data == scripted.entity.common.extended_data
            &&& scripted.entity.common.handle.value != 0 ==> result
                == scripted.entity.common.handle
            &&& end.entities.len() == doc.entities.len() + 1
            &&& forall|i: int|
                0 <= i < doc.entities.len() ==> (#[trigger] end.entities[i]) == doc.entities[i]
            &&& after == announced(before, tab, open, end)
            &&& view_told(before, after, tab, open)
            &&& after.tabs[tab].undo == before.tabs[tab].undo
            &&& after.tabs[tab].scene.geometry_epoch != before.tabs[tab].scene.geometry_epoch
        },
{
    if !(scripted.derived is Refused) {
        let doc = before.tabs[tab].scene.document;
        let end = after.tabs[tab].scene.document;
        let (prepared, linked, ready) = choose|
            prepared: DocumentView,
            linked: EntityType,
            ready: EntityType,
        |
            {
                &&& #[trigger] image_prepared(
                    doc,
                    prepared,
                    scripted.entity,
                    linked,
                    scripted.file,
                )
                &&& #[trigger] normalized(prepared, None, linked, ready, scripted.derived)
                &&& if ready.data is AttributeEntity {
                    crate::scripting::attribute_outcome(before, after, tab, open, ready, result)
                } else {
                    crate::scripting::entity_outcome(
                        before,
                        after,
                        tab,
                        open,
                        prepared,
                        ready,
                        result,
                    )
                }
            };
        assert(prepared == doc && linked == scripted.entity);
        added_entity_reads_back(doc, end, ready);
        added_entity_joins_its_block(doc, end, ready);
        announcing_replaces_the_drawing(before, tab, open, end);
    }
}

/// An entity that a script replaces takes the place of the one with its handle, as it
/// was given; every other entity stays, and the application is told. Where there is no
/// such entity, or the engine refuses the new one, nothing changes.
pub proof fn scripted_entity_is_replaced<S, C>(
    before: StudioView<S, C>,
    after: StudioView<S, C>,
    tab: int,
    open: bool,
    scripted: Scripted,
    result: bool,
)
    requires
        0 <= tab < before.tabs.len(),
        before.tabs[tab].scene.document.spare(1),
        self_contained(scripted.entity) || scripted.entity.data is RasterImage,
        updated(before, after, tab, open, scripted, result),
    ensures
        ({
            let doc = before.tabs[tab].scene.document;
            let end = after.tabs[tab].scene.document;
            let handle = scripted.entity.common.handle;
            &&& result <==> !(scripted.derived is Refused) && doc.entity(handle) is Some
            &&& !result ==> after == before
            &&& result ==> {
                let entity = end.entity(handle)->Some_0;
                &&& end.entity(handle) is Some
                &&& entity.common == scripted.entity.common
                &&& entity.data == scripted.entity.data
                &&& record_of(scripted, entity)
                &&& end.entities.len() == doc.entities.len()
                &&& exists|place: int|
                    {
                        &&& 0 <= place < doc.entities.len()
                        &&& doc.entities[place].common.handle == handle
                        &&& #[trigger] end.entities[place] == entity
                        &&& forall|i: int|
                            0 <= i < doc.entities.len() && i != place ==> (
                            #[trigger] end.entities[i]) == doc.entities[i]
                    }
                &&& after == announced(before, tab, open, end)
                &&& view_told(before, after, tab, open)
                &&& after.tabs[tab].undo == before.tabs[tab].undo
            }
        }),
{
    let doc = before.tabs[tab].scene.document;
    let end = after.tabs[tab].scene.document;
    if result {
        let ready = choose|ready: EntityType|
            {
                &&& #[trigger] normalized(
                    doc,
                    doc.entity(scripted.entity.common.handle),
                    scripted.entity,
                    ready,
                    scripted.derived,
                )
                &&& result == replaces(doc, ready)
                &&& if result {
                    let changed = after.tabs[tab].scene.document;
                    crate::scripting::entity_applied(doc, changed, ready) && after == announced(
                        before,
                        tab,
                        open,
                        changed,
                    )
                } else {
                    after == before
                }
            };
        crate::scene::replaced_entity_reads_back(doc, end, ready);
        replaced_entity_takes_the_place(doc, end, ready);
        announcing_replaces_the_drawing(before, tab, open, end);
    }
}

/// The image is to be given a definition: it has none yet.
pub open spec fn wants_definition(entity: EntityType) -> bool {
    entity.data is RasterImage && open_end(entity.data->RasterImage_0.definition_handle)
}

/// The drawing defines the image of the file under the handle.
pub open spec fn defined_under(doc: DocumentView, path: Seq<char>, handle: Handle) -> bool {
    exists|i: int|
        {
            &&& 0 <= i < doc.objects.len()
            &&& (#[trigger] doc.objects[i]).handle == handle
            &&& doc.objects[i].object is ImageDefinition
            &&& doc.objects[i].object->ImageDefinition_0.file_name@ == path
        }
}

/// An image that wants a definition gets the one that the drawing has for its file, or
/// a new one with the size of the file. It is refused exactly where its file cannot be
/// read. Nothing else of the image changes but its size, and any other entity stays as
/// it is.
pub proof fn image_gets_its_definition(
    before: DocumentView,
    after: DocumentView,
    entity: EntityType,
    ready: EntityType,
    file: Result<ImageFile, String>,
)
    requires
        before.spare(2),
        image_fault(entity, file) is None ==> image_prepared(before, after, entity, ready, file),
    ensures
        image_fault(entity, file) is Some <==> wants_definition(entity) && file is Err,
        !wants_definition(entity) ==> after == before && ready == entity,
        wants_definition(entity) && file is Ok ==> {
            let image = entity.data->RasterImage_0;
            let new = ready.data->RasterImage_0;
            &&& ready.data is RasterImage
            &&& ready.common == entity.common
            &&& ready.record == entity.record
            &&& new.definition_handle is Some
            &&& new.file_path == image.file_path
            &&& *new == (RasterImage {
                definition_handle: new.definition_handle,
                size: new.size,
                ..*image
            })
            &&& bounded(new.size.x) && new.size.x.value() == file->Ok_0.width * pow2(1074)
            &&& bounded(new.size.y) && new.size.y.value() == file->Ok_0.height * pow2(1074)
            &&& defined_under(after, image.file_path@, new.definition_handle->Some_0)
            &&& (exists|i: int|
                0 <= i < before.objects.len() && (
                #[trigger] before.objects[i]).object is ImageDefinition
                    && before.objects[i].object->ImageDefinition_0.file_name@ == image.file_path@)
                ==> after == before
            &&& !(exists|i: int|
                0 <= i < before.objects.len() && (
                #[trigger] before.objects[i]).object is ImageDefinition
                    && before.objects[i].object->ImageDefinition_0.file_name@ == image.file_path@)
                ==> {
                &&& new.definition_handle->Some_0.value == before.next_handle
                &&& after.object(new.definition_handle->Some_0) is Some
                &&& after.object(new.definition_handle->Some_0)->Some_0 is ImageDefinition
                &&& ({
                    let definition = after.object(
                        new.definition_handle->Some_0,
                    )->Some_0->ImageDefinition_0;
                    &&& definition.file_name@ == image.file_path@
                    &&& definition.width == file->Ok_0.width
                    &&& definition.height == file->Ok_0.height
                    &&& definition.is_loaded
                    &&& definition.handle == new.definition_handle->Some_0
                })
            }
            &&& after.entities == before.entities
            &&& after.layers == before.layers
            &&& after.block_records == before.block_records
        },
{
    crate::plain::numbers_in_plain_terms();
    if wants_definition(entity) && file is Ok {
        let image = entity.data->RasterImage_0;
        let path = image.file_path@;
        let test = image_definition_of(path);
        seek_finds(before.objects, 0, test);
        preparing_keeps_entities(before, after, entity, ready, file);
        if exists|i: int|
            0 <= i < before.objects.len() && (#[trigger] before.objects[i]).object is ImageDefinition
                && before.objects[i].object->ImageDefinition_0.file_name@ == path {
            let i = choose|i: int|
                0 <= i < before.objects.len() && (
                #[trigger] before.objects[i]).object is ImageDefinition
                    && before.objects[i].object->ImageDefinition_0.file_name@ == path;
            assert(test(before.objects[i]));
            let k = seek(before.objects, 0, test)->Some_0;
            assert(test(before.objects[k]));
            assert(defined_under(after, path, before.objects[k].handle));
        } else {
            if seek(before.objects, 0, test) is Some {
                let k = seek(before.objects, 0, test)->Some_0;
                assert(test(before.objects[k]));
            }
            assert(image_definition(before, path) is None);
            new_definition_is_there(before, after, path, file->Ok_0);
        }
    }
}

proof fn new_definition_is_there(
    before: DocumentView,
    after: DocumentView,
    path: Seq<char>,
    file: ImageFile,
)
    requires
        image_added(before, after, path, file),
    ensures
        ({
            let handle = Handle { value: before.next_handle };
            let object = after.object(handle);
            &&& object is Some
            &&& object->Some_0 is ImageDefinition
            &&& object->Some_0->ImageDefinition_0.file_name@ == path
            &&& object->Some_0->ImageDefinition_0.width == file.width
            &&& object->Some_0->ImageDefinition_0.height == file.height
            &&& object->Some_0->ImageDefinition_0.is_loaded
            &&& object->Some_0->ImageDefinition_0.handle == handle
            &&& defined_under(after, path, handle)
        }),
{
    let handle = Handle { value: before.next_handle };
    let (owner, middle, listed, definition) = choose|
        owner: Option<Handle>,
        middle: DocumentView,
        listed: DocumentView,
        definition: ObjectType,
    |
        {
            &&& #[trigger] crate::images::image_dictionary_ready(
                DocumentView { next_handle: (before.next_handle + 1) as u64, ..before },
                middle,
                owner,
            )
            &&& #[trigger] crate::images::image_listed(
                middle,
                listed,
                owner,
                handle,
                crate::images::listed_stem(file),
            )
            &&& #[trigger] crate::images::defines_image(definition, handle, owner, path, file)
            &&& after == (DocumentView {
                objects: crate::images::stored(
                    listed.objects,
                    crate::document::ObjectEntry { handle, object: definition },
                ),
                ..listed
            })
        };
    let entry = crate::document::ObjectEntry { handle, object: definition };
    crate::images::stored_is_found(listed.objects, entry, handle);
    seek_finds(listed.objects, 0, crate::document::object_with(handle));
    seek_finds(after.objects, 0, crate::document::object_with(handle));
    let k = seek(after.objects, 0, crate::document::object_with(handle))->Some_0;
    assert(after.objects[k] == entry);
    assert(after.objects[k].handle == handle);
}

proof fn steps_add_one_each(
    steps: Seq<DocumentView>,
    entities: Seq<EntityType>,
    handles: Seq<Handle>,
    count: int,
)
    requires
        added_in_steps(steps, entities, handles),
        0 <= count <= entities.len(),
        steps[0].next_handle + 2 * entities.len() <= u64::MAX,
        forall|i: int|
            0 <= i < entities.len() ==> (#[trigger] entities[i]).common.handle.value + 2
                * entities.len() + 1 <= u64::MAX,
    ensures
        steps[count].entities.len() == steps[0].entities.len() + count,
        steps[count].next_handle + 2 * (entities.len() - count) <= u64::MAX,
        forall|i: int|
            0 <= i < steps[0].entities.len() ==> (#[trigger] steps[count].entities[i])
                == steps[0].entities[i],
        forall|k: int|
            #![trigger steps[count].entities[steps[0].entities.len() + k]]
            0 <= k < count ==> {
                let entity = steps[count].entities[steps[0].entities.len() + k];
                &&& entity.common.handle == handles[k]
                &&& entity.data == entities[k].data
                &&& entity.record == entities[k].record
                &&& entity.common.layer == entities[k].common.layer
            },
    decreases count,
{
    if count > 0 {
        let last = count - 1;
        steps_add_one_each(steps, entities, handles, last);
        assert(entity_added(steps[last], steps[last + 1], entities[last]));
        assert(entities[last].common.handle.value + 2 * entities.len() + 1 <= u64::MAX);
        added_entity_joins_its_block(steps[last], steps[count], entities[last]);
        added_entity_reads_back(steps[last], steps[count], entities[last]);
        let middle = choose|middle: DocumentView| #[trigger]
            layer_registered(steps[last], middle, entities[last].common.layer@) && entity_placed(
                middle,
                steps[count],
                entities[last],
            );
        let start = steps[0].entities.len();
        assert forall|k: int|
            #![trigger steps[count].entities[start + k]]
            0 <= k < count implies {
            let entity = steps[count].entities[start + k];
            &&& entity.common.handle == handles[k]
            &&& entity.data == entities[k].data
            &&& entity.record == entities[k].record
            &&& entity.common.layer == entities[k].common.layer
        } by {
            if k < last {
                assert(steps[count].entities[start + k] == steps[last].entities[start + k]);
            }
        }
        assert forall|i: int| 0 <= i < start implies (#[trigger] steps[count].entities[i])
            == steps[0].entities[i] by {
            assert(steps[count].entities[i] == steps[last].entities[i]);
        }
    }
}

/// Adding several entities puts them behind those that are there, in order and as they
/// were given, and gives their handles in the same order.
pub proof fn entities_are_added_in_order(
    before: DocumentView,
    after: DocumentView,
    entities: Seq<EntityType>,
    handles: Seq<Handle>,
)
    requires
        all_added(before, after, entities, handles),
        before.next_handle + 2 * entities.len() <= u64::MAX,
        forall|i: int|
            0 <= i < entities.len() ==> (#[trigger] entities[i]).common.handle.value + 2
                * entities.len() + 1 <= u64::MAX,
    ensures
        handles.len() == entities.len(),
        after.entities.len() == before.entities.len() + entities.len(),
        forall|i: int|
            0 <= i < before.entities.len() ==> (#[trigger] after.entities[i]) == before.entities[i],
        forall|k: int|
            #![trigger after.entities[before.entities.len() + k]]
            0 <= k < entities.len() ==> {
                let entity = after.entities[before.entities.len() + k];
                &&& entity.common.handle == handles[k]
                &&& entity.data == entities[k].data
                &&& entity.record == entities[k].record
                &&& entity.common.layer == entities[k].common.layer
            },
{
    let steps = choose|steps: Seq<DocumentView>| #[trigger]
        added_in_steps(steps, entities, handles) && steps[0] == before && steps.last() == after;
    steps_add_one_each(steps, entities, handles, entities.len() as int);
}

proof fn steps_make_ready(
    steps: Seq<DocumentView>,
    batch: Seq<Scripted>,
    ready: Seq<EntityType>,
    count: int,
)
    requires
        ready_in_steps(steps, batch, ready),
        0 <= count <= batch.len(),
        steps[0].next_handle + 2 * batch.len() <= u64::MAX,
    ensures
        steps[count].entities == steps[0].entities,
        steps[count].next_handle <= steps[0].next_handle + 2 * count,
        forall|k: int|
            #![trigger ready[k]]
            0 <= k < count ==> {
                &&& ready[k].common == batch[k].entity.common
                &&& self_contained(batch[k].entity) ==> ready[k].data == batch[k].entity.data
                &&& self_contained(batch[k].entity) && !(batch[k].derived is Refused)
                    ==> record_of(batch[k], ready[k])
                &&& batch[k].derived is Refused && self_contained(batch[k].entity) ==> ready[k]
                    == batch[k].entity
            },
    decreases count,
{
    if count > 0 {
        let last = count - 1;
        steps_make_ready(steps, batch, ready, last);
        let (a, b, scripted, result) = (steps[last], steps[last + 1], batch[last], ready[last]);
        assert(made_ready(a, b, scripted, result));
        let linked = choose|linked: EntityType|
            {
                &&& #[trigger] crate::scripting::image_attempted(a, b, scripted, linked)
                &&& if scripted.derived is Refused {
                    result == linked
                } else {
                    normalized(b, None, linked, result, scripted.derived)
                }
            };
        if image_fault(scripted.entity, scripted.file) is None {
            preparing_keeps_entities(a, b, scripted.entity, linked, scripted.file);
        }
    }
}

/// A batch that a script adds stands behind what was there, in order: each entity as it
/// was given, under the handle that the script gets. The application is told once.
pub proof fn scripted_batch_is_added<S, C>(
    before: StudioView<S, C>,
    after: StudioView<S, C>,
    tab: int,
    open: bool,
    batch: Seq<Scripted>,
    result: Seq<Handle>,
)
    requires
        0 <= tab < before.tabs.len(),
        before.tabs[tab].scene.document.next_handle + 4 * batch.len() <= u64::MAX,
        forall|i: int|
            0 <= i < batch.len() ==> (#[trigger] batch[i]).entity.common.handle.value + 4
                * batch.len() + 1 <= u64::MAX,
        batch_added(before, after, tab, open, batch, result),
    ensures
        ({
            let doc = before.tabs[tab].scene.document;
            let end = after.tabs[tab].scene.document;
            let count = doc.entities.len() as int;
            &&& result.len() == batch.len()
            &&& end.entities.len() == count + batch.len()
            &&& forall|i: int|
                0 <= i < count ==> (#[trigger] end.entities[i]) == doc.entities[i]
            &&& forall|k: int|
                #![trigger end.entities[count + k]]
                0 <= k < batch.len() ==> {
                    let entity = end.entities[count + k];
                    &&& entity.common.handle == result[k]
                    &&& entity.common.layer == batch[k].entity.common.layer
                    &&& self_contained(batch[k].entity) ==> entity.data == batch[k].entity.data
                    &&& self_contained(batch[k].entity) && !(batch[k].derived is Refused)
                        ==> record_of(batch[k], entity)
                    &&& self_contained(batch[k].entity) && batch[k].derived is Refused
                        ==> entity.record == batch[k].entity.record
                }
            &&& after == announced(before, tab, open, end)
            &&& view_told(before, after, tab, open)
        }),
{
    let doc = before.tabs[tab].scene.document;
    let end = after.tabs[tab].scene.document;
    let (prepared, ready) = choose|prepared: DocumentView, ready: Seq<EntityType>| #[trigger]
        all_ready(doc, prepared, batch, ready) && #[trigger] all_added(
            prepared,
            end,
            ready,
            result,
        );
    let steps = choose|steps: Seq<DocumentView>| #[trigger]
        ready_in_steps(steps, batch, ready) && steps[0] == doc && steps.last() == prepared;
    steps_make_ready(steps, batch, ready, batch.len() as int);
    assert forall|i: int| 0 <= i < ready.len() implies (#[trigger] ready[i]).common.handle.value + 2
        * ready.len() + 1 <= u64::MAX by {
        assert(batch[i].entity.common.handle.value + 4 * batch.len() + 1 <= u64::MAX);
    }
    entities_are_added_in_order(prepared, end, ready, result);
    announcing_replaces_the_drawing(before, tab, open, end);
    let count = doc.entities.len();
    assert forall|k: int|
        #![trigger end.entities[count + k]]
        0 <= k < batch.len() implies {
        let entity = end.entities[count + k];
        &&& entity.common.handle == result[k]
        &&& entity.common.layer == batch[k].entity.common.layer
        &&& self_contained(batch[k].entity) ==> entity.data == batch[k].entity.data
        &&& self_contained(batch[k].entity) && !(batch[k].derived is Refused) ==> record_of(
            batch[k],
            entity,
        )
        &&& self_contained(batch[k].entity) && batch[k].derived is Refused ==> entity.record
            == batch[k].entity.record
    } by {
        let entity = end.entities[prepared.entities.len() + k];
        assert(ready[k].common == batch[k].entity.common);
    }
}

/// An attribute that a script adds joins the block reference that it names as its
/// owner, behind the attributes that are there, and the application is told. Without
/// such an owner, or where the owner has an attribute with the handle, no attribute is
/// added and the script gets the null handle.
pub proof fn scripted_attribute_is_added<S, C>(
    before: StudioView<S, C>,
    after: StudioView<S, C>,
    tab: int,
    open: bool,
    scripted: Scripted,
    result: Handle,
)
    requires
        0 <= tab < before.tabs.len(),
        before.tabs[tab].scene.document.spare(4),
        before.tabs[tab].scene.document.next_handle > 0,
        scripted.entity.data is AttributeEntity,
        scripted.answered(),
        added(before, after, tab, open, scripted, result),
    ensures
        ({
            let doc = before.tabs[tab].scene.document;
            let end = after.tabs[tab].scene.document;
            let given = scripted.entity.common;
            let owner = doc.entity(given.owner_handle);
            let handle = if given.handle.value == 0 {
                doc.next_handle
            } else {
                given.handle.value
            };
            let housed = owner is Some && owner->Some_0.data is Insert;
            let list = owner->Some_0.data->Insert_0.attributes@;
            let free = forall|k: int|
                0 <= k < list.len() ==> (#[trigger] list[k]).common.handle.value != handle;
            &&& result.value == if housed && free {
                handle
            } else {
                0
            }
            &&& !housed ==> after == before
            &&& housed && !free ==> end.entities == doc.entities && after.events == before.events
            &&& housed && free ==> {
                &&& after == announced(before, tab, open, end)
                &&& view_told(before, after, tab, open)
                &&& exists|place: int|
                    {
                        let added = attributes_at(end, place).last();
                        &&& #[trigger] one_insert_changed(doc, end, given.owner_handle, place)
                        &&& attributes_at(end, place) == attributes_at(doc, place).push(added)
                        &&& added.common.handle.value == handle
                        &&& added.common.layer == given.layer
                        &&& added.common.owner_handle == given.owner_handle
                        &&& added.value == scripted.entity.data->AttributeEntity_0
                        &&& added.record == scripted.entity.record
                    }
            }
        }),
{
    let doc = before.tabs[tab].scene.document;
    let end = after.tabs[tab].scene.document;
    let (prepared, linked, ready) = choose|
        prepared: DocumentView,
        linked: EntityType,
        ready: EntityType,
    |
        {
            &&& #[trigger] image_prepared(doc, prepared, scripted.entity, linked, scripted.file)
            &&& #[trigger] normalized(prepared, None, linked, ready, scripted.derived)
            &&& if ready.data is AttributeEntity {
                crate::scripting::attribute_outcome(before, after, tab, open, ready, result)
            } else {
                crate::scripting::entity_outcome(before, after, tab, open, prepared, ready, result)
            }
        };
    assert(ready == scripted.entity);
    let given = scripted.entity.common;
    let owner = doc.entity(given.owner_handle);
    if owner is Some && owner->Some_0.data is Insert {
        let list = owner->Some_0.data->Insert_0.attributes@;
        let handle = crate::scene::placed_handle(doc, scripted.entity);
        let test = crate::attributes::attribute_with(handle);
        seek_finds(list, 0, test);
        if seek(list, 0, test) is Some {
            let k = seek(list, 0, test)->Some_0;
            assert(test(list[k]));
        } else {
            assert forall|k: int| 0 <= k < list.len() implies (
            #[trigger] list[k]).common.handle.value != handle.value by {
                assert(!test(list[k]));
                if list[k].common.handle.value == handle.value {
                    assert(list[k].common.handle == handle);
                }
            }
            let numbered = if given.handle.value == 0 {
                DocumentView { next_handle: (doc.next_handle + 1) as u64, ..doc }
            } else {
                doc
            };
            let attribute = crate::scripting::as_record(
                EntityType {
                    common: crate::entities::EntityCommon { handle, ..given },
                    ..scripted.entity
                },
            );
            assert(crate::attributes::attribute_attached(numbered, end, attribute));
            attached_attribute_comes_last(numbered, end, attribute);
            let place = choose|place: int|
                {
                    &&& #[trigger] one_insert_changed(numbered, end, given.owner_handle, place)
                    &&& attributes_at(end, place).len() == attributes_at(numbered, place).len() + 1
                    &&& attributes_at(end, place).last() == attribute
                    &&& forall|k: int|
                        0 <= k < attributes_at(numbered, place).len() ==> (
                        #[trigger] attributes_at(end, place)[k]) == attributes_at(
                            numbered,
                            place,
                        )[k]
                };
            assert(one_insert_changed(doc, end, given.owner_handle, place));
            assert(attributes_at(end, place) =~= attributes_at(doc, place).push(attribute));
            announcing_replaces_the_drawing(before, tab, open, end);
        }
    }
}

/// An attribute that a script replaces takes the place of the first with its handle in
/// the block reference that it names as its owner; every other attribute stays, and the
/// application is told. Without such an attribute nothing changes.
pub proof fn scripted_attribute_is_replaced<S, C>(
    before: StudioView<S, C>,
    after: StudioView<S, C>,
    tab: int,
    open: bool,
    scripted: Scripted,
    result: bool,
)
    requires
        0 <= tab < before.tabs.len(),
        before.tabs[tab].scene.document.spare(1),
        scripted.entity.data is AttributeEntity,
        scripted.answered(),
        updated(before, after, tab, open, scripted, result),
    ensures
        ({
            let doc = before.tabs[tab].scene.document;
            let end = after.tabs[tab].scene.document;
            let given = scripted.entity.common;
            let owner = doc.entity(given.owner_handle);
            let list = owner->Some_0.data->Insert_0.attributes@;
            &&& result <==> owner is Some && owner->Some_0.data is Insert && exists|k: int|
                0 <= k < list.len() && (#[trigger] list[k]).common.handle == given.handle
            &&& !result ==> after == before
            &&& result ==> {
                &&& after == announced(before, tab, open, end)
                &&& view_told(before, after, tab, open)
                &&& exists|place: int, slot: int|
                    {
                        let now = attributes_at(end, place);
                        let then = attributes_at(doc, place);
                        &&& #[trigger] one_insert_changed(doc, end, given.owner_handle, place)
                        &&& #[trigger] first_attribute(
                            attributes_at(doc, place),
                            given.handle,
                            slot,
                        )
                        &&& now == then.update(slot, now[slot])
                        &&& now[slot].common == given
                        &&& now[slot].value == scripted.entity.data->AttributeEntity_0
                        &&& now[slot].record == scripted.entity.record
                    }
            }
        }),
{
    let doc = before.tabs[tab].scene.document;
    let end = after.tabs[tab].scene.document;
    let given = scripted.entity.common;
    let owner = doc.entity(given.owner_handle);
    let test = crate::attributes::attribute_with(given.handle);
    if owner is Some && owner->Some_0.data is Insert {
        let list = owner->Some_0.data->Insert_0.attributes@;
        seek_finds(list, 0, test);
        if exists|k: int| 0 <= k < list.len() && (#[trigger] list[k]).common.handle == given.handle {
            let k = choose|k: int|
                0 <= k < list.len() && (#[trigger] list[k]).common.handle == given.handle;
            assert(test(list[k]));
        }
        if seek(list, 0, test) is Some {
            let k = seek(list, 0, test)->Some_0;
            assert(test(list[k]));
        }
    }
    if result {
        let ready = choose|ready: EntityType|
            {
                &&& #[trigger] normalized(
                    doc,
                    doc.entity(scripted.entity.common.handle),
                    scripted.entity,
                    ready,
                    scripted.derived,
                )
                &&& result == replaces(doc, ready)
                &&& if result {
                    let changed = after.tabs[tab].scene.document;
                    crate::scripting::entity_applied(doc, changed, ready) && after == announced(
                        before,
                        tab,
                        open,
                        changed,
                    )
                } else {
                    after == before
                }
            };
        assert(ready == scripted.entity);
        let attribute = crate::scripting::as_record(ready);
        replaced_attribute_takes_the_place(doc, end, attribute);
        let (place, slot) = choose|place: int, slot: int|
            {
                &&& #[trigger] one_insert_changed(doc, end, attribute.common.owner_handle, place)
                &&& #[trigger] first_attribute(
                    attributes_at(doc, place),
                    attribute.common.handle,
                    slot,
                )
                &&& attributes_at(end, place).len() == attributes_at(doc, place).len()
                &&& attributes_at(end, place)[slot] == attribute
                &&& forall|k: int|
                    0 <= k < attributes_at(doc, place).len() && k != slot ==> (
                    #[trigger] attributes_at(end, place)[k]) == attributes_at(doc, place)[k]
            };
        let now = attributes_at(end, place);
        let then = attributes_at(doc, place);
        assert(now =~= then.update(slot, now[slot]));
        announcing_replaces_the_drawing(before, tab, open, end);
    }
}

} // verus!
