//! The fields of an entity that follow from others, and what becomes of attributes.

use crate::attributes::{
    attribute_attached, attribute_dropped, attribute_other_than, attribute_replaced, attribute_slot,
    attribute_with, model_entity, reattributed, stores,
};
use crate::document::{entity_with, DocumentView};
use crate::entities::{
    AttributeRecord, EntityData, EntityType, Insert, MLine, SectionSymbol, Spline, Viewport,
};
use crate::geometry::Handle;
use crate::normalize::{highest_id, id_left, labelled, normalized, Derived};
use crate::reference_rules::owning_insert;
use crate::scene::entity_replaced;
use crate::search::{passing, passing_holds, seek, seek_back_finds, seek_finds};
use vstd::prelude::*;
use vstd::string::*;

verus! {

/// The entity is a viewport of the owner.
pub open spec fn shows_for(entity: EntityType, owner: Handle) -> bool {
    entity.data is Viewport && entity.common.owner_handle == owner
}

proof fn highest_is_highest(entities: Seq<EntityType>, owner: Handle, count: int)
    requires
        0 <= count <= entities.len(),
    ensures
        highest_id(entities, owner, count) is Some <==> exists|i: int|
            0 <= i < count && shows_for(#[trigger] entities[i], owner),
        highest_id(entities, owner, count) is Some ==> {
            let id = highest_id(entities, owner, count)->Some_0;
            &&& forall|i: int|
                0 <= i < count && shows_for(#[trigger] entities[i], owner)
                    ==> entities[i].data->Viewport_0.id <= id
            &&& exists|i: int|
                0 <= i < count && shows_for(#[trigger] entities[i], owner)
                    && entities[i].data->Viewport_0.id == id
        },
    decreases count,
{
    if count > 0 {
        highest_is_highest(entities, owner, count - 1);
        let below = highest_id(entities, owner, count - 1);
        if below is Some {
            let i = choose|i: int|
                0 <= i < count - 1 && shows_for(#[trigger] entities[i], owner)
                    && entities[i].data->Viewport_0.id == below->Some_0;
            assert(shows_for(entities[i], owner));
        }
        if shows_for(entities[count - 1], owner) {
            assert(shows_for(entities[count - 1], owner));
        }
    }
}

/// A new viewport gets an id of two or more, above every id of its layout, and no
/// higher than that takes. An edited one keeps its id. Its scale is the one that was
/// derived, and nothing else of it changes.
pub proof fn viewport_gets_an_id(
    doc: DocumentView,
    old: Option<EntityType>,
    before: EntityType,
    after: EntityType,
    derived: Derived,
)
    requires
        normalized(doc, old, before, after, derived),
        before.data is Viewport,
        derived is Scale,
        id_left(doc, before),
    ensures
        after.common == before.common,
        after.record == before.record,
        after.data is Viewport,
        after.data->Viewport_0.custom_scale == derived->Scale_0,
        old is Some ==> after.data->Viewport_0.id == before.data->Viewport_0.id,
        old is None ==> {
            let id = after.data->Viewport_0.id;
            let owner = before.common.owner_handle;
            &&& id >= 2
            &&& forall|i: int|
                0 <= i < doc.entities.len() && shows_for(#[trigger] doc.entities[i], owner)
                    ==> doc.entities[i].data->Viewport_0.id < id
            &&& id > 2 ==> exists|i: int|
                0 <= i < doc.entities.len() && shows_for(#[trigger] doc.entities[i], owner)
                    && doc.entities[i].data->Viewport_0.id == id - 1
        },
{
    highest_is_highest(doc.entities, before.common.owner_handle, doc.entities.len() as int);
}

/// A spline is rational exactly where it has weights; nothing else of it changes.
pub proof fn spline_with_weights_is_rational(
    doc: DocumentView,
    old: Option<EntityType>,
    before: EntityType,
    after: EntityType,
    derived: Derived,
)
    requires
        normalized(doc, old, before, after, derived),
        before.data is Spline,
    ensures
        after.common == before.common,
        after.record == before.record,
        after.data is Spline,
        after.data->Spline_0.rational <==> after.data->Spline_0.weights@.len() != 0,
        after.data->Spline_0.weights == before.data->Spline_0.weights,
{
}

/// The points of a section symbol with an edit that leaves them alone keep all that
/// follows from them.
pub proof fn section_with_its_points_stays(
    doc: DocumentView,
    old: EntityType,
    before: EntityType,
    after: EntityType,
    derived: Derived,
)
    requires
        normalized(doc, Some(old), before, after, derived),
        before.data is SectionSymbol,
        old.data is SectionSymbol,
        crate::agree::lists_agree(
            old.data->SectionSymbol_0.points@,
            before.data->SectionSymbol_0.points@,
        ),
    ensures
        after == before,
{
}

/// A section symbol with new points ends at the first and the last of them, has their
/// ticks and the first label that is not empty, and counts them.
pub proof fn section_follows_its_points(
    doc: DocumentView,
    old: Option<EntityType>,
    before: EntityType,
    after: EntityType,
    derived: Derived,
)
    requires
        normalized(doc, old, before, after, derived),
        before.data is SectionSymbol,
        !(old is Some && old->Some_0.data is SectionSymbol && crate::agree::lists_agree(
            old->Some_0.data->SectionSymbol_0.points@,
            before.data->SectionSymbol_0.points@,
        )),
    ensures
        after.common == before.common,
        after.record == before.record,
        after.data is SectionSymbol,
        ({
            let value = before.data->SectionSymbol_0;
            let new = after.data->SectionSymbol_0;
            let points = value.points@;
            let last = points.len() - 1;
            &&& new.points == value.points
            &&& points.len() <= 0x7fff_ffff ==> new.raw_point_count_90 == points.len()
                && new.raw_point_record_count == points.len()
            &&& points.len() > 0x7fff_ffff ==> new.raw_point_count_90 == 0x7fff_ffff
                && new.raw_point_record_count == 0x7fff_ffff
            &&& points.len() > 0 ==> {
                &&& new.end_a.x == points[0].point.x && new.end_a.y == points[0].point.y
                &&& new.end_b.x == points[last].point.x && new.end_b.y == points[last].point.y
                &&& new.tick_a == points[0].label_offset.y
                &&& new.tick_b == points[last].label_offset.y
                &&& forall|i: int|
                    #![trigger points[i]]
                    0 <= i < points.len() && points[i].label@.len() > 0 && (forall|j: int|
                        0 <= j < i ==> (#[trigger] points[j]).label@.len() == 0) ==> new.label@
                        == points[i].label@
                &&& (forall|i: int|
                    0 <= i < points.len() ==> (#[trigger] points[i]).label@.len() == 0)
                    ==> new.label@.len() == 0
            }
            &&& points.len() == 0 ==> new.end_a == value.end_a && new.end_b == value.end_b
                && new.tick_a == value.tick_a && new.tick_b == value.tick_b && new.label@
                == value.label@
        }),
{
    let points = before.data->SectionSymbol_0.points@;
    reveal_strlit("");
    seek_finds(points, 0, labelled());
    if seek(points, 0, labelled()) is Some {
        let k = seek(points, 0, labelled())->Some_0;
        assert(labelled()(points[k]));
        assert forall|i: int|
            #![trigger points[i]]
            0 <= i < points.len() && points[i].label@.len() > 0 && (forall|j: int|
                0 <= j < i ==> (#[trigger] points[j]).label@.len() == 0) implies i == k by {
            assert(labelled()(points[i]));
            if k < i {
                assert(points[k].label@.len() == 0);
            }
        }
    } else {
        assert forall|i: int| 0 <= i < points.len() implies (#[trigger] points[i]).label@.len()
            == 0 by {
            assert(!labelled()(points[i]));
        }
    }
}

/// A multiline is cut as was derived, vertex by vertex; its vertices stay where they
/// were, and so does the rest of it.
pub proof fn multiline_is_cut_as_derived(
    doc: DocumentView,
    old: Option<EntityType>,
    before: EntityType,
    after: EntityType,
    derived: Derived,
)
    requires
        normalized(doc, old, before, after, derived),
        before.data is MLine,
    ensures
        derived is Cuts,
        after.common == before.common,
        after.record == derived->Cuts_1,
        after.data is MLine,
        ({
            let value = before.data->MLine_0;
            let new = after.data->MLine_0;
            let cuts = derived->Cuts_0@;
            &&& new.vertices@.len() == value.vertices@.len()
            &&& forall|i: int|
                #![trigger new.vertices@[i]]
                0 <= i < value.vertices@.len() ==> {
                    &&& new.vertices@[i].position == value.vertices@[i].position
                    &&& new.vertices@[i].direction == cuts[i].direction
                    &&& new.vertices@[i].miter == cuts[i].miter
                    &&& new.vertices@[i].segments == cuts[i].segments
                }
            &&& *new == (MLine { vertices: new.vertices, ..*value })
        }),
{
}

/// Any other entity stays as it is, but for the record that was derived for it.
pub proof fn other_entities_keep_their_fields(
    doc: DocumentView,
    old: Option<EntityType>,
    before: EntityType,
    after: EntityType,
    derived: Derived,
)
    requires
        normalized(doc, old, before, after, derived),
        !(before.data is Viewport || before.data is SectionSymbol || before.data is Spline
            || before.data is MLine),
    ensures
        after.common == before.common,
        after.data == before.data,
        after.record == if derived is Record {
            derived->Record_0
        } else {
            before.record
        },
{
}

/// The attribute with the handle in a block reference is the first that has it.
pub open spec fn first_attribute(list: Seq<AttributeRecord>, handle: Handle, i: int) -> bool {
    &&& 0 <= i < list.len()
    &&& list[i].common.handle == handle
    &&& forall|j: int| 0 <= j < i ==> (#[trigger] list[j]).common.handle != handle
}

/// Scripts see an entity under its handle, and otherwise the attribute that some block
/// reference stores under it, as an entity.
pub proof fn scripts_see_entities_first(doc: DocumentView, handle: Handle)
    ensures
        doc.entity(handle) is Some ==> model_entity(doc, handle) == doc.entity(handle),
        doc.entity(handle) is None && model_entity(doc, handle) is Some ==> exists|i: int, k: int|
            {
                &&& 0 <= i < doc.entities.len()
                &&& doc.entities[i].data is Insert
                &&& #[trigger] first_attribute(
                    doc.entities[i].data->Insert_0.attributes@,
                    handle,
                    k,
                )
                &&& model_entity(doc, handle)->Some_0.common
                    == doc.entities[i].data->Insert_0.attributes@[k].common
                &&& model_entity(doc, handle)->Some_0.data is AttributeEntity
                &&& model_entity(doc, handle)->Some_0.data->AttributeEntity_0
                    == doc.entities[i].data->Insert_0.attributes@[k].value
                &&& model_entity(doc, handle)->Some_0.record
                    == doc.entities[i].data->Insert_0.attributes@[k].record
            },
        model_entity(doc, handle) is None ==> forall|i: int|
            #![trigger doc.entities[i]]
            0 <= i < doc.entities.len() && doc.entities[i].data is Insert ==> forall|k: int|
                #![trigger doc.entities[i].data->Insert_0.attributes@[k]]
                0 <= k < doc.entities[i].data->Insert_0.attributes@.len()
                    ==> doc.entities[i].data->Insert_0.attributes@[k].common.handle != handle,
{
    let test = stores(handle);
    seek_finds(doc.entities, 0, test);
    if doc.entity(handle) is None && model_entity(doc, handle) is Some {
        let i = seek(doc.entities, 0, test)->Some_0;
        assert(test(doc.entities[i]));
        let list = doc.entities[i].data->Insert_0.attributes@;
        seek_finds(list, 0, attribute_with(handle));
        let k = seek(list, 0, attribute_with(handle))->Some_0;
        assert(attribute_with(handle)(list[k]));
        assert forall|j: int| 0 <= j < k implies (#[trigger] list[j]).common.handle != handle by {
            assert(!attribute_with(handle)(list[j]));
        }
        assert(first_attribute(list, handle, k));
    }
    if model_entity(doc, handle) is None {
        assert forall|i: int|
            #![trigger doc.entities[i]]
            0 <= i < doc.entities.len() && doc.entities[i].data is Insert implies forall|k: int|
            #![trigger doc.entities[i].data->Insert_0.attributes@[k]]
            0 <= k < doc.entities[i].data->Insert_0.attributes@.len()
                ==> doc.entities[i].data->Insert_0.attributes@[k].common.handle != handle by {
            let list = doc.entities[i].data->Insert_0.attributes@;
            if seek(doc.entities, 0, test) is Some {
                let j = seek(doc.entities, 0, test)->Some_0;
                assert(test(doc.entities[j]));
            }
            assert(!test(doc.entities[i]));
            seek_finds(list, 0, attribute_with(handle));
            assert forall|k: int|
                #![trigger doc.entities[i].data->Insert_0.attributes@[k]]
                0 <= k < list.len() implies doc.entities[i].data->Insert_0.attributes@[k].common.handle
                != handle by {
                assert(!attribute_with(handle)(list[k]));
            }
        }
    }
}

/// One block reference has other attributes; every other entity is the same.
pub open spec fn one_insert_changed(
    before: DocumentView,
    after: DocumentView,
    owner: Handle,
    place: int,
) -> bool {
    &&& 0 <= place < before.entities.len()
    &&& after.entities.len() == before.entities.len()
    &&& before.entities[place].common.handle == owner
    &&& before.entities[place].data is Insert
    &&& after.entities[place].data is Insert
    &&& after.entities[place].common == before.entities[place].common
    &&& after.entities[place].record == before.entities[place].record
    &&& ({
        let old_insert = before.entities[place].data->Insert_0;
        let insert = after.entities[place].data->Insert_0;
        *insert == (Insert { attributes: insert.attributes, ..*old_insert })
    })
    &&& forall|i: int|
        0 <= i < before.entities.len() && i != place ==> (#[trigger] after.entities[i])
            == before.entities[i]
}

/// The attributes of the block reference at a place.
pub open spec fn attributes_at(doc: DocumentView, place: int) -> Seq<AttributeRecord> {
    doc.entities[place].data->Insert_0.attributes@
}

proof fn owner_has_a_place(
    before: DocumentView,
    after: DocumentView,
    owner: Handle,
    attributes: Seq<AttributeRecord>,
) -> (place: int)
    requires
        crate::attributes::owner_reattributed(before, after, owner, attributes),
        before.spare(1),
    ensures
        one_insert_changed(before, after, owner, place),
        attributes_at(after, place) == attributes,
        owning_insert(before, owner) is Some,
        attributes_at(before, place) == owning_insert(before, owner)->Some_0.attributes@,
{
    let changed = choose|changed: EntityType| #[trigger]
        entity_replaced(before, after, changed) && (before.entity(owner) matches Some(entity)
            && reattributed(entity, changed, attributes));
    seek_back_finds(before.entities, before.entities.len() as int, entity_with(owner));
    let place = before.entity_place(owner)->Some_0;
    assert(entity_with(owner)(before.entities[place]));
    assert(after.entities =~= before.entities.update(place, changed));
    place
}

/// An attribute that was attached stands last among those of the block reference that
/// owns it, and nothing else changes there.
pub proof fn attached_attribute_comes_last(
    before: DocumentView,
    after: DocumentView,
    attribute: AttributeRecord,
)
    requires
        attribute_attached(before, after, attribute),
        before.spare(1),
    ensures
        exists|place: int|
            {
                &&& #[trigger] one_insert_changed(
                    before,
                    after,
                    attribute.common.owner_handle,
                    place,
                )
                &&& attributes_at(after, place).len() == attributes_at(before, place).len() + 1
                &&& attributes_at(after, place).last() == attribute
                &&& forall|k: int|
                    0 <= k < attributes_at(before, place).len() ==> (#[trigger] attributes_at(
                        after,
                        place,
                    )[k]) == attributes_at(before, place)[k]
            },
{
    let owner = attribute.common.owner_handle;
    let list = owning_insert(before, owner)->Some_0.attributes@;
    let place = owner_has_a_place(before, after, owner, list.push(attribute));
    assert(one_insert_changed(before, after, owner, place));
}

/// An attribute that was replaced stands where the first with its handle stood, and
/// the others stay.
pub proof fn replaced_attribute_takes_the_place(
    before: DocumentView,
    after: DocumentView,
    attribute: AttributeRecord,
)
    requires
        attribute_replaced(before, after, attribute),
        before.spare(1),
    ensures
        exists|place: int, slot: int|
            {
                &&& #[trigger] one_insert_changed(
                    before,
                    after,
                    attribute.common.owner_handle,
                    place,
                )
                &&& #[trigger] first_attribute(
                    attributes_at(before, place),
                    attribute.common.handle,
                    slot,
                )
                &&& attributes_at(after, place).len() == attributes_at(before, place).len()
                &&& attributes_at(after, place)[slot] == attribute
                &&& forall|k: int|
                    0 <= k < attributes_at(before, place).len() && k != slot ==> (
                    #[trigger] attributes_at(after, place)[k]) == attributes_at(before, place)[k]
            },
{
    let owner = attribute.common.owner_handle;
    let handle = attribute.common.handle;
    let list = owning_insert(before, owner)->Some_0.attributes@;
    let test = attribute_with(handle);
    seek_finds(list, 0, test);
    let slot = attribute_slot(before, owner, handle)->Some_0;
    let place = owner_has_a_place(before, after, owner, list.update(slot, attribute));
    assert(test(list[slot]));
    assert forall|j: int| 0 <= j < slot implies (#[trigger] list[j]).common.handle != handle by {
        assert(!test(list[j]));
    }
    assert(one_insert_changed(before, after, owner, place));
    assert(first_attribute(attributes_at(before, place), handle, slot));
}

/// An attribute that was dropped is gone from the block reference that owns it, and
/// every attribute with another handle is still there.
pub proof fn dropped_attribute_is_gone(
    before: DocumentView,
    after: DocumentView,
    owner: Handle,
    handle: Handle,
)
    requires
        attribute_dropped(before, after, owner, handle),
        before.spare(1),
    ensures
        exists|place: int|
            {
                &&& #[trigger] one_insert_changed(before, after, owner, place)
                &&& forall|attribute: AttributeRecord| #[trigger]
                    attributes_at(after, place).contains(attribute) <==> attributes_at(
                        before,
                        place,
                    ).contains(attribute) && attribute.common.handle != handle
            },
{
    let list = owning_insert(before, owner)->Some_0.attributes@;
    let test = attribute_other_than(handle);
    let rest = passing(list, test);
    let place = owner_has_a_place(before, after, owner, rest);
    passing_holds(list, test);
    assert(one_insert_changed(before, after, owner, place));
    assert forall|attribute: AttributeRecord| #[trigger]
        rest.contains(attribute) <==> list.contains(attribute) && attribute.common.handle
            != handle by {
        if rest.contains(attribute) {
            let i = choose|i: int| 0 <= i < rest.len() && rest[i] == attribute;
            assert(test(rest[i]));
        } else if list.contains(attribute) {
            assert(!test(attribute));
        }
    }
}

/// The kind of an entity is the one of its data, so data of different kinds are told
/// apart.
pub proof fn kinds_are_those_of_the_data(data: EntityData)
    ensures
        data is Point <==> data.kind() is Point,
        data is Line <==> data.kind() is Line,
        data is Circle <==> data.kind() is Circle,
        data is Arc <==> data.kind() is Arc,
        data is Solid <==> data.kind() is Solid,
        data is Face3D <==> data.kind() is Face3D,
        data is Ray <==> data.kind() is Ray,
        data is XLine <==> data.kind() is XLine,
        data is Viewport <==> data.kind() is Viewport,
        data is Surface <==> data.kind() is Surface,
        data is Insert <==> data.kind() is Insert,
        data is Tolerance <==> data.kind() is Tolerance,
        data is Shape <==> data.kind() is Shape,
        data is Leader <==> data.kind() is Leader,
        data is MLine <==> data.kind() is MLine,
        data is Dimension <==> data.kind() is Dimension,
        data is MultiLeader <==> data.kind() is MultiLeader,
        data is Table <==> data.kind() is Table,
        data is AttributeDefinition <==> data.kind() is AttributeDefinition,
        data is AttributeEntity <==> data.kind() is AttributeEntity,
        data is Hatch <==> data.kind() is Hatch,
        data is Spline <==> data.kind() is Spline,
        data is SectionSymbol <==> data.kind() is SectionSymbol,
        data is RasterImage <==> data.kind() is RasterImage,
        data is Text <==> data.kind() is Text,
        data is MText <==> data.kind() is MText,
        data is Ellipse <==> data.kind() is Ellipse,
        data is Polyline <==> data.kind() is Polyline,
        data is Polyline2D <==> data.kind() is Polyline2D,
        data is Polyline3D <==> data.kind() is Polyline3D,
        data is LwPolyline <==> data.kind() is LwPolyline,
        data is Helix <==> data.kind() is Helix,
        data is Block <==> data.kind() is Block,
        data is BlockEnd <==> data.kind() is BlockEnd,
        data is Mesh <==> data.kind() is Mesh,
        data is Solid3D <==> data.kind() is Solid3D,
        data is Region <==> data.kind() is Region,
        data is Body <==> data.kind() is Body,
        data is PolyfaceMesh <==> data.kind() is PolyfaceMesh,
        data is Wipeout <==> data.kind() is Wipeout,
        data is Underlay <==> data.kind() is Underlay,
        data is Seqend <==> data.kind() is Seqend,
        data is Ole2Frame <==> data.kind() is Ole2Frame,
        data is PolygonMesh <==> data.kind() is PolygonMesh,
        data is Light <==> data.kind() is Light,
        data is ViewBorder <==> data.kind() is ViewBorder,
        data is Extended <==> data.kind() is Extended,
        data is Unknown <==> data.kind() is Unknown,
{
}

/// The engine answers for an entity with what its kind calls for: a record for a
/// dimension, a helix or a table, cuts for each vertex of a multiline, a scale for a
/// viewport, and nothing for any other. It can refuse a helix or a multiline.
pub proof fn engine_answers_by_kind(derived: Derived, data: EntityData)
    ensures
        derived.fits(data) <==> {
            ||| derived is Nothing && !(data is Dimension || data is Helix || data is Table
                || data is MLine || data is Viewport)
            ||| derived is Record && (data is Dimension || data is Helix || data is Table)
            ||| derived is Cuts && data is MLine && derived->Cuts_0@.len()
                == data->MLine_0.vertices@.len()
            ||| derived is Refused && (data is Helix || data is MLine)
            ||| derived is Scale && data is Viewport
        },
{
}

} // verus!
