//! What becomes of a drawing when entities are looked up, added, replaced or erased.

use crate::document::{entity_with, object_with, DocumentView};
use crate::entities::{Color, EntityType};
use crate::geometry::Handle;
use crate::layer_laws::layer_is_found;
use crate::plain::{text_in_plain_terms, written};
use crate::records::{identified, keyed, table_key, BlockRecord, Layer, LineWeight, Transparency};
use crate::scene::{
    asked_owner, entity_added, entity_placed, entity_replaced, erased, home, kept, layer_registered,
    locked, still_there, SceneView,
};
use crate::search::{passing_holds, seek, seek_back, seek_back_finds, seek_finds};
use vstd::prelude::*;
use vstd::string::*;

verus! {

/// The entity is the last one of the drawing with the handle.
pub open spec fn answers_to(doc: DocumentView, handle: Handle, entity: EntityType) -> bool {
    exists|i: int|
        {
            &&& 0 <= i < doc.entities.len()
            &&& #[trigger] doc.entities[i] == entity
            &&& entity.common.handle.value == handle.value
            &&& forall|j: int|
                i < j < doc.entities.len() ==> (#[trigger] doc.entities[j]).common.handle.value
                    != handle.value
        }
}

/// A handle leads to an entity exactly where one has it, and to the last that has it.
pub proof fn entity_is_found(doc: DocumentView, handle: Handle)
    ensures
        doc.entity(handle) is Some <==> exists|i: int|
            0 <= i < doc.entities.len() && (#[trigger] doc.entities[i]).common.handle.value
                == handle.value,
        doc.entity(handle) is Some ==> answers_to(doc, handle, doc.entity(handle)->Some_0),
{
    let test = entity_with(handle);
    let count = doc.entities.len() as int;
    seek_back_finds(doc.entities, count, test);
    if exists|i: int|
        0 <= i < doc.entities.len() && (#[trigger] doc.entities[i]).common.handle.value
            == handle.value {
        let i = choose|i: int|
            0 <= i < doc.entities.len() && (#[trigger] doc.entities[i]).common.handle.value
                == handle.value;
        assert(doc.entities[i].common.handle == handle);
        assert(test(doc.entities[i]));
    }
    if doc.entity(handle) is Some {
        let i = seek_back(doc.entities, count, test)->Some_0;
        assert(test(doc.entities[i]));
        assert forall|j: int| i < j < doc.entities.len() implies (
        #[trigger] doc.entities[j]).common.handle.value != handle.value by {
            assert(!test(doc.entities[j]));
            if doc.entities[j].common.handle.value == handle.value {
                assert(doc.entities[j].common.handle == handle);
            }
        }
    }
}

/// The first layer that is filed under the name is locked.
pub open spec fn layer_is_locked(doc: DocumentView, name: Seq<char>) -> bool {
    exists|i: int|
        {
            &&& 0 <= i < doc.layers.len()
            &&& table_key((#[trigger] doc.layers[i]).name@) == table_key(name)
            &&& doc.layers[i].locked
            &&& forall|j: int|
                0 <= j < i ==> table_key((#[trigger] doc.layers[j]).name@) != table_key(name)
        }
}

/// An entity is locked exactly where its layer is in the drawing and locked.
pub proof fn locked_by_the_layer(doc: DocumentView, handle: Handle)
    ensures
        locked(doc, handle) <==> exists|entity: EntityType| #[trigger]
            answers_to(doc, handle, entity) && layer_is_locked(doc, entity.common.layer@),
{
    entity_is_found(doc, handle);
    if doc.entity(handle) is Some {
        let entity = doc.entity(handle)->Some_0;
        let name = entity.common.layer@;
        let test = keyed::<Layer>(table_key(name));
        layer_is_found(doc, name);
        seek_finds(doc.layers, 0, test);
        if locked(doc, handle) {
            let i = seek(doc.layers, 0, test)->Some_0;
            assert(test(doc.layers[i]));
            assert forall|j: int| 0 <= j < i implies table_key((#[trigger] doc.layers[j]).name@)
                != table_key(name) by {
                assert(!test(doc.layers[j]));
            }
            assert(layer_is_locked(doc, name));
        }
        if layer_is_locked(doc, name) {
            let i = choose|i: int|
                {
                    &&& 0 <= i < doc.layers.len()
                    &&& table_key((#[trigger] doc.layers[i]).name@) == table_key(name)
                    &&& doc.layers[i].locked
                    &&& forall|j: int|
                        0 <= j < i ==> table_key((#[trigger] doc.layers[j]).name@) != table_key(
                            name,
                        )
                };
            assert(test(doc.layers[i]));
            let k = seek(doc.layers, 0, test)->Some_0;
            if k < i {
                assert(test(doc.layers[k]));
                assert(table_key(doc.layers[k].name@) != table_key(name));
            }
            assert(k == i);
        }
        assert forall|other: EntityType| #[trigger] answers_to(doc, handle, other) implies other
            == entity by {
            one_answers(doc, handle, entity, other);
        }
    } else {
        assert forall|other: EntityType| !(#[trigger] answers_to(doc, handle, other)) by {}
    }
}

proof fn one_answers(doc: DocumentView, handle: Handle, a: EntityType, b: EntityType)
    requires
        answers_to(doc, handle, a),
        answers_to(doc, handle, b),
    ensures
        a == b,
{
    let i = choose|i: int|
        {
            &&& 0 <= i < doc.entities.len()
            &&& #[trigger] doc.entities[i] == a
            &&& a.common.handle.value == handle.value
            &&& forall|j: int|
                i < j < doc.entities.len() ==> (#[trigger] doc.entities[j]).common.handle.value
                    != handle.value
        };
    let k = choose|k: int|
        {
            &&& 0 <= k < doc.entities.len()
            &&& #[trigger] doc.entities[k] == b
            &&& b.common.handle.value == handle.value
            &&& forall|j: int|
                k < j < doc.entities.len() ==> (#[trigger] doc.entities[j]).common.handle.value
                    != handle.value
        };
    if i < k {
        assert(doc.entities[k].common.handle.value != handle.value);
    } else if k < i {
        assert(doc.entities[i].common.handle.value != handle.value);
    }
}

/// What is not about entities and layers is the same in two drawings.
pub open spec fn same_furniture(before: DocumentView, after: DocumentView) -> bool {
    &&& after.objects == before.objects
    &&& after.text_styles == before.text_styles
    &&& after.dim_styles == before.dim_styles
    &&& after.line_types == before.line_types
    &&& after.app_ids == before.app_ids
    &&& after.header == before.header
}

/// Erasing takes the named entities off a drawing and off the selection, but for those
/// on locked layers. Every other entity stays, and so does the rest of the drawing.
pub proof fn erasing_takes_the_unlocked(scene: SceneView, handles: Seq<Handle>)
    ensures
        forall|entity: EntityType| #[trigger]
            erased(scene, handles).document.entities.contains(entity)
                <==> scene.document.entities.contains(entity) && !(handles.contains(
                entity.common.handle,
            ) && !locked(scene.document, entity.common.handle)),
        forall|handle: Handle| #[trigger]
            erased(scene, handles).selection.contains(handle) <==> scene.selection.contains(handle)
                && !(handles.contains(handle) && !locked(scene.document, handle)),
        same_furniture(scene.document, erased(scene, handles).document),
        erased(scene, handles).document.layers == scene.document.layers,
        erased(scene, handles).document.block_records == scene.document.block_records,
        erased(scene, handles).document.next_handle == scene.document.next_handle,
        erased(scene, handles).geometry_epoch != scene.geometry_epoch,
{
    let doc = scene.document;
    let entities = erased(scene, handles).document.entities;
    let selection = erased(scene, handles).selection;
    passing_holds(doc.entities, kept(doc, handles));
    passing_holds(scene.selection, still_there(doc, handles));
    assert forall|entity: EntityType| #[trigger]
        entities.contains(entity) <==> doc.entities.contains(entity) && !(handles.contains(
            entity.common.handle,
        ) && !locked(doc, entity.common.handle)) by {
        if entities.contains(entity) {
            let i = choose|i: int| 0 <= i < entities.len() && entities[i] == entity;
            assert(kept(doc, handles)(entities[i]));
        } else if doc.entities.contains(entity) {
            assert(!kept(doc, handles)(entity));
        }
    }
    assert forall|handle: Handle| #[trigger]
        selection.contains(handle) <==> scene.selection.contains(handle) && !(handles.contains(
            handle,
        ) && !locked(doc, handle)) by {
        if selection.contains(handle) {
            let i = choose|i: int| 0 <= i < selection.len() && selection[i] == handle;
            assert(still_there(doc, handles)(selection[i]));
        } else if scene.selection.contains(handle) {
            assert(!still_there(doc, handles)(handle));
        }
    }
}

/// A layer that an entity names is there afterwards. Where it was not, it is on,
/// thawed, unlocked, plotted, white and continuous. A blank name adds none, and the
/// other layers stay.
pub proof fn layer_comes_with_its_entity(before: DocumentView, after: DocumentView, name: Seq<char>)
    requires
        layer_registered(before, after, name),
        before.spare(1),
    ensures
        written(name) ==> after.layer(name) is Some,
        before.layer(name) is Some || !written(name) ==> after == before,
        before.layer(name) is None && written(name) ==> {
            let layer = after.layer(name)->Some_0;
            &&& after.layers == before.layers.push(layer)
            &&& layer.name@ == name
            &&& layer.handle.value == before.next_handle
            &&& after.next_handle == before.next_handle + 1
            &&& !layer.off
            &&& !layer.frozen
            &&& !layer.locked
            &&& layer.is_plottable
            &&& layer.color == Color::Index(7)
            &&& layer.line_type@ == "Continuous"@
            &&& layer.line_weight == LineWeight::Standard
            &&& layer.transparency == Transparency::Explicit(0)
            &&& layer.description@.len() == 0
            &&& layer.color_name is None && layer.book_name is None
        },
        forall|other: Seq<char>|
            table_key(other) != table_key(name) ==> #[trigger] after.layer(other) == before.layer(
                other,
            ),
        same_furniture(before, after),
        after.entities == before.entities,
        after.block_records == before.block_records,
{
    text_in_plain_terms();
    reveal_strlit("");
    if before.layer(name) is None && written(name) {
        let test = keyed::<Layer>(table_key(name));
        let last = before.layers.len() as int;
        seek_finds(before.layers, 0, test);
        seek_finds(after.layers, 0, test);
        assert(test(after.layers[last]));
        let found = seek(after.layers, 0, test)->Some_0;
        if found < last {
            assert(test(before.layers[found]));
        }
        assert forall|other: Seq<char>| table_key(other) != table_key(name) implies
            #[trigger] after.layer(other) == before.layer(other) by {
            let there = keyed::<Layer>(table_key(other));
            seek_finds(before.layers, 0, there);
            seek_finds(after.layers, 0, there);
            if seek(before.layers, 0, there) is Some {
                let k = seek(before.layers, 0, there)->Some_0;
                assert(there(after.layers[k]));
            }
            if seek(after.layers, 0, there) is Some {
                let k = seek(after.layers, 0, there)->Some_0;
                assert(there(after.layers[k]));
                assert(k != last);
                assert(there(before.layers[k]));
            }
        }
    }
}

/// The entity belongs to the block: its handle is the newest among the block's
/// members, and the block is its owner.
pub open spec fn joined(before: DocumentView, after: DocumentView, entity: EntityType, i: int) -> bool {
    &&& 0 <= i < before.block_records.len()
    &&& entity.common.owner_handle == before.block_records[i].handle
    &&& after.block_records.len() == before.block_records.len()
    &&& after.block_records[i].handle == before.block_records[i].handle
    &&& after.block_records[i].name@ == before.block_records[i].name@
    &&& after.block_records[i].entity_handles@ == before.block_records[i].entity_handles@.push(
        entity.common.handle,
    )
    &&& forall|j: int|
        0 <= j < before.block_records.len() && j != i ==> (#[trigger] after.block_records[j])
            == before.block_records[j]
}

/// Adding an entity puts it last, leaves every entity before it alone, and makes it a
/// member of the block that it names as its owner. Without an owner it goes to the
/// sheet or to model space. Attributes and the markers of blocks join no block.
pub proof fn added_entity_joins_its_block(
    before: DocumentView,
    after: DocumentView,
    entity: EntityType,
)
    requires
        entity_added(before, after, entity),
        before.spare(2),
        entity.common.handle.value < u64::MAX,
    ensures
        after.entities.len() == before.entities.len() + 1,
        forall|i: int|
            0 <= i < before.entities.len() ==> (#[trigger] after.entities[i]) == before.entities[i],
        ({
            let added = after.entities[before.entities.len() as int];
            let owner = entity.common.owner_handle;
            let markers = entity.data.kind() is AttributeEntity || entity.data.kind() is Block
                || entity.data.kind() is BlockEnd;
            &&& added.data == entity.data
            &&& added.record == entity.record
            &&& added.common.layer == entity.common.layer
            &&& added.common.look == entity.common.look
            &&& added.common.on_paper == entity.common.on_paper
            &&& added.common.extended_data == entity.common.extended_data
            &&& entity.common.handle.value != 0 ==> added.common.handle == entity.common.handle
            &&& entity.common.handle.value == 0 ==> added.common.handle.value
                == before.next_handle + (if written(entity.common.layer@) && before.layer(
                entity.common.layer@,
            ) is None {
                1int
            } else {
                0
            })
            &&& entity.common.handle.value == 0 ==> after.next_handle
                == added.common.handle.value + 1
            &&& added.common.handle.value < after.next_handle
            &&& before.next_handle <= after.next_handle
            &&& markers ==> after.block_records == before.block_records
            &&& markers && owner.value != 0 ==> added.common.owner_handle == owner
            &&& !markers && owner.value != 0 && (exists|i: int|
                0 <= i < before.block_records.len() && (#[trigger] before.block_records[i]).handle
                    == owner) ==> exists|i: int|
                {
                    &&& #[trigger] joined(before, after, added, i)
                    &&& before.block_records[i].handle == owner
                }
            &&& !markers && owner.value == 0 && entity.common.on_paper
                && before.header.paper_space_block_handle.value != 0 && (exists|i: int|
                0 <= i < before.block_records.len() && (#[trigger] before.block_records[i]).handle
                    == before.header.paper_space_block_handle) ==> exists|i: int|
                {
                    &&& #[trigger] joined(before, after, added, i)
                    &&& before.block_records[i].handle == before.header.paper_space_block_handle
                }
            &&& !markers && owner.value == 0 && !entity.common.on_paper
                && before.header.model_space_block_handle.value != 0 && (exists|i: int|
                0 <= i < before.block_records.len() && (#[trigger] before.block_records[i]).handle
                    == before.header.model_space_block_handle) ==> exists|i: int|
                {
                    &&& #[trigger] joined(before, after, added, i)
                    &&& before.block_records[i].handle == before.header.model_space_block_handle
                }
            &&& !markers && (forall|i: int|
                0 <= i < before.block_records.len() ==> (#[trigger] before.block_records[i]).handle
                    != owner && before.block_records[i].handle
                    != before.header.paper_space_block_handle && before.block_records[i].handle
                    != before.header.model_space_block_handle) && (exists|i: int|
                0 <= i < before.block_records.len() && table_key(
                    (#[trigger] before.block_records[i]).name@,
                ) == table_key("*Model_Space"@)) ==> exists|i: int|
                {
                    &&& #[trigger] joined(before, after, added, i)
                    &&& table_key(before.block_records[i].name@) == table_key("*Model_Space"@)
                }
        }),
        same_furniture(before, after),
{
    let middle = choose|middle: DocumentView| #[trigger]
        layer_registered(before, middle, entity.common.layer@) && entity_placed(
            middle,
            after,
            entity,
        );
    let added = after.entities[before.entities.len() as int];
    text_in_plain_terms();
    layer_comes_with_its_entity(before, middle, entity.common.layer@);
    let owner = asked_owner(middle, entity);
    let test = identified::<BlockRecord>(owner);
    seek_finds(before.block_records, 0, test);
    if exists|i: int|
        0 <= i < before.block_records.len() && (#[trigger] before.block_records[i]).handle == owner {
        let i = choose|i: int|
            0 <= i < before.block_records.len() && (#[trigger] before.block_records[i]).handle
                == owner;
        assert(test(before.block_records[i]));
        let k = seek(before.block_records, 0, test)->Some_0;
        assert(test(before.block_records[k]));
        if home(middle, entity) is Some && !owner.null() {
            assert(home(middle, entity) == Some(k));
            assert(joined(before, after, added, k));
        }
    } else {
        let named = keyed::<BlockRecord>(table_key("*Model_Space"@));
        seek_finds(before.block_records, 0, named);
        if exists|i: int|
            0 <= i < before.block_records.len() && table_key(
                (#[trigger] before.block_records[i]).name@,
            ) == table_key("*Model_Space"@) {
            let i = choose|i: int|
                0 <= i < before.block_records.len() && table_key(
                    (#[trigger] before.block_records[i]).name@,
                ) == table_key("*Model_Space"@);
            assert(named(before.block_records[i]));
            let k = seek(before.block_records, 0, named)->Some_0;
            assert(named(before.block_records[k]));
            if home(middle, entity) is Some {
                if seek(before.block_records, 0, test) is Some {
                    let m = seek(before.block_records, 0, test)->Some_0;
                    assert(test(before.block_records[m]));
                    assert(before.block_records[m].handle == owner);
                }
                assert(home(middle, entity) == Some(k));
                assert(joined(before, after, added, k));
            }
        }
    }
}

/// Replacing an entity puts the new one where the old one was. Every other entity and
/// the rest of the drawing stay, but for the layer that the new one may bring.
pub proof fn replaced_entity_takes_the_place(
    before: DocumentView,
    after: DocumentView,
    entity: EntityType,
)
    requires
        entity_replaced(before, after, entity),
        before.spare(1),
    ensures
        after.entities.len() == before.entities.len(),
        exists|place: int|
            {
                &&& 0 <= place < before.entities.len()
                &&& before.entities[place].common.handle == entity.common.handle
                &&& #[trigger] after.entities[place] == entity
                &&& forall|i: int|
                    0 <= i < before.entities.len() && i != place ==> (#[trigger] after.entities[i])
                        == before.entities[i]
            },
        written(entity.common.layer@) ==> after.layer(entity.common.layer@) is Some,
        before.layer(entity.common.layer@) is Some ==> after.layers == before.layers,
        same_furniture(before, after),
        after.block_records == before.block_records,
{
    let handle = entity.common.handle;
    let test = entity_with(handle);
    seek_back_finds(before.entities, before.entities.len() as int, test);
    let place = before.entity_place(handle)->Some_0;
    assert(test(before.entities[place]));
    let middle = choose|middle: DocumentView| #[trigger]
        layer_registered(before, middle, entity.common.layer@) && (
        before.entity_place(entity.common.handle) matches Some(i) && after == (DocumentView {
            entities: before.entities.update(i, entity),
            ..middle
        }));
    layer_comes_with_its_entity(before, middle, entity.common.layer@);
    assert(after.layer(entity.common.layer@) == middle.layer(entity.common.layer@));
    assert(after.entities[place] == entity);
}

/// The first object of the drawing with the handle.
pub open spec fn first_object(doc: DocumentView, handle: Handle, i: int) -> bool {
    &&& 0 <= i < doc.objects.len()
    &&& doc.objects[i].handle == handle
    &&& forall|j: int| 0 <= j < i ==> (#[trigger] doc.objects[j]).handle != handle
}

/// The first block of the drawing with the handle.
pub open spec fn first_block(doc: DocumentView, handle: Handle, i: int) -> bool {
    &&& 0 <= i < doc.block_records.len()
    &&& doc.block_records[i].handle == handle
    &&& forall|j: int| 0 <= j < i ==> (#[trigger] doc.block_records[j]).handle != handle
}

/// The first block of the drawing that is filed under the name.
pub open spec fn first_block_filed(doc: DocumentView, name: Seq<char>, i: int) -> bool {
    &&& 0 <= i < doc.block_records.len()
    &&& table_key(doc.block_records[i].name@) == table_key(name)
    &&& forall|j: int|
        0 <= j < i ==> table_key((#[trigger] doc.block_records[j]).name@) != table_key(name)
}

/// Objects and blocks are found where they are, and the first of them counts.
pub proof fn objects_and_blocks_are_found(doc: DocumentView, handle: Handle, name: Seq<char>, i: int)
    ensures
        first_object(doc, handle, i) ==> doc.object(handle) == Some(doc.objects[i].object),
        doc.object(handle) is Some ==> exists|k: int| #[trigger] first_object(doc, handle, k),
        first_block(doc, handle, i) ==> doc.block_with(handle) == Some(doc.block_records[i]),
        doc.block_with(handle) is Some ==> exists|k: int| #[trigger] first_block(doc, handle, k),
        first_block_filed(doc, name, i) ==> doc.block(name) == Some(doc.block_records[i]),
        doc.block(name) is Some ==> exists|k: int| #[trigger] first_block_filed(doc, name, k),
{
    let object = object_with(handle);
    let block = identified::<BlockRecord>(handle);
    let named = keyed::<BlockRecord>(table_key(name));
    seek_finds(doc.objects, 0, object);
    seek_finds(doc.block_records, 0, block);
    seek_finds(doc.block_records, 0, named);
    if seek(doc.objects, 0, object) is Some {
        let k = seek(doc.objects, 0, object)->Some_0;
        assert(object(doc.objects[k]));
        assert forall|j: int| 0 <= j < k implies (#[trigger] doc.objects[j]).handle != handle by {
            assert(!object(doc.objects[j]));
        }
        assert(first_object(doc, handle, k));
        if first_object(doc, handle, i) && k < i {
            assert(doc.objects[k].handle != handle);
        }
    } else if first_object(doc, handle, i) {
        assert(object(doc.objects[i]));
    }
    if seek(doc.block_records, 0, block) is Some {
        let k = seek(doc.block_records, 0, block)->Some_0;
        assert(block(doc.block_records[k]));
        assert forall|j: int| 0 <= j < k implies (#[trigger] doc.block_records[j]).handle
            != handle by {
            assert(!block(doc.block_records[j]));
        }
        assert(first_block(doc, handle, k));
        if first_block(doc, handle, i) && k < i {
            assert(doc.block_records[k].handle != handle);
        }
    } else if first_block(doc, handle, i) {
        assert(block(doc.block_records[i]));
    }
    if seek(doc.block_records, 0, named) is Some {
        let k = seek(doc.block_records, 0, named)->Some_0;
        assert(named(doc.block_records[k]));
        assert forall|j: int| 0 <= j < k implies table_key((#[trigger] doc.block_records[j]).name@)
            != table_key(name) by {
            assert(!named(doc.block_records[j]));
        }
        assert(first_block_filed(doc, name, k));
        if first_block_filed(doc, name, i) && k < i {
            assert(table_key(doc.block_records[k].name@) != table_key(name));
        }
        if first_block_filed(doc, name, i) && i < k {
            assert(named(doc.block_records[i]));
        }
    } else if first_block_filed(doc, name, i) {
        assert(named(doc.block_records[i]));
    }
}

} // verus!
