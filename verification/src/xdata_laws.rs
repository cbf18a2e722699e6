//! What becomes of the data that applications attach to entities.

use crate::document::{entity_with, DocumentView};
use crate::entities::{EntityType, ExtendedDataRecord, RawRecord};
use crate::geometry::Handle;
use crate::layer_laws::only_tab;
use crate::outside::app_id;
use crate::records::table_key;
use crate::scene::locked;
use crate::search::{passing, passing_holds, seek, seek_back_finds, seek_finds};
use crate::session_laws::view_told;
use crate::studio::StudioView;
use crate::xdata::{
    app_registered, bytes_of, bytes_of_another, record_at, record_of, record_of_another,
    record_written, removal_outcome, write_outcome,
};
use vstd::prelude::*;
use vstd::string::*;

verus! {

/// The records that are attached to an entity.
pub open spec fn records_on(entity: EntityType) -> Seq<ExtendedDataRecord> {
    entity.common.extended_data.records@
}

/// The bytes that a file held for the applications of an entity.
pub open spec fn bytes_on(entity: EntityType) -> Seq<RawRecord> {
    entity.common.extended_data.raw_dwg_eed@
}

/// One entity has other data attached; every other entity and the rest of the drawing
/// are the same.
pub open spec fn one_entity_attached(
    before: DocumentView,
    after: DocumentView,
    handle: Handle,
    place: int,
) -> bool {
    let old_entity = before.entities[place];
    let entity = after.entities[place];
    &&& 0 <= place < before.entities.len()
    &&& after.entities.len() == before.entities.len()
    &&& old_entity.common.handle == handle
    &&& entity.common.handle == handle
    &&& entity.common.layer == old_entity.common.layer
    &&& entity.common.owner_handle == old_entity.common.owner_handle
    &&& entity.common.on_paper == old_entity.common.on_paper
    &&& entity.common.look == old_entity.common.look
    &&& entity.data == old_entity.data
    &&& entity.record == old_entity.record
    &&& forall|i: int|
        0 <= i < before.entities.len() && i != place ==> (#[trigger] after.entities[i])
            == before.entities[i]
    &&& after.layers == before.layers
    &&& after.header == before.header
    &&& after.objects == before.objects
    &&& after.text_styles == before.text_styles
    &&& after.dim_styles == before.dim_styles
    &&& after.line_types == before.line_types
    &&& after.block_records == before.block_records
}

/// Which application the bytes are of.
pub open spec fn for_application(doc: DocumentView, raw: RawRecord, name: Seq<char>) -> bool {
    doc.app_ids.contains_key(table_key(name)) && doc.app_ids[table_key(name)] == raw.application
}

/// The application is registered: under the handle that it had, or under a new one. The
/// others stay.
pub open spec fn application_known(
    before: DocumentView,
    after: DocumentView,
    name: Seq<char>,
) -> bool {
    &&& after.app_ids.contains_key(table_key(name))
    &&& before.app_ids.contains_key(table_key(name)) ==> after.app_ids == before.app_ids
        && after.next_handle == before.next_handle
    &&& !before.app_ids.contains_key(table_key(name)) ==> after.app_ids[table_key(name)]
        == before.next_handle && after.next_handle == before.next_handle + 1
    &&& forall|key: Seq<char>|
        key != table_key(name) ==> (#[trigger] after.app_ids.contains_key(key)
            == before.app_ids.contains_key(key)) && after.app_ids[key] == before.app_ids[key]
}

proof fn kept_records(records: Seq<ExtendedDataRecord>, name: Seq<char>)
    ensures
        forall|record: ExtendedDataRecord| #[trigger]
            passing(records, record_of_another(name)).contains(record) <==> records.contains(record)
                && record.application_name@ != name,
{
    let test = record_of_another(name);
    let rest = passing(records, test);
    passing_holds(records, test);
    assert forall|record: ExtendedDataRecord| #[trigger]
        rest.contains(record) <==> records.contains(record) && record.application_name@
            != name by {
        if rest.contains(record) {
            let i = choose|i: int| 0 <= i < rest.len() && rest[i] == record;
            assert(test(rest[i]));
        } else if records.contains(record) {
            assert(!test(record));
        }
    }
}

proof fn kept_bytes(doc: DocumentView, list: Seq<RawRecord>, name: Seq<char>)
    ensures
        forall|raw: RawRecord| #[trigger]
            passing(list, bytes_of_another(app_id(doc.app_ids, name))).contains(raw)
                <==> list.contains(raw) && !for_application(doc, raw, name),
{
    let test = bytes_of_another(app_id(doc.app_ids, name));
    let rest = passing(list, test);
    passing_holds(list, test);
    assert forall|raw: RawRecord| #[trigger]
        rest.contains(raw) <==> list.contains(raw) && !for_application(doc, raw, name) by {
        if rest.contains(raw) {
            let i = choose|i: int| 0 <= i < rest.len() && rest[i] == raw;
            assert(test(rest[i]));
        } else if list.contains(raw) {
            assert(!test(raw));
        }
    }
}

/// The drawing changed: it is marked as changed since it was saved, its geometry counts
/// as changed and the application is told. The history is not touched.
pub open spec fn data_told<S, C>(
    before: StudioView<S, C>,
    after: StudioView<S, C>,
    tab: int,
    open: bool,
) -> bool {
    let old_epoch = before.tabs[tab].scene.geometry_epoch;
    &&& after.tabs[tab].dirty
    &&& after.tabs[tab].scene.geometry_epoch == if old_epoch < u64::MAX {
        old_epoch + 1
    } else {
        0
    }
    &&& after.tabs[tab].scene.selection == before.tabs[tab].scene.selection
    &&& after.tabs[tab].undo == before.tabs[tab].undo
    &&& after.tabs[tab].redo == before.tabs[tab].redo
    &&& view_told(before, after, tab, open)
    &&& only_tab(before, after, tab)
    &&& after.ribbon == before.ribbon
}

/// A record is written exactly where the entity is there and not on a locked layer. It
/// comes behind the records of the other applications, which stay; those of its own
/// application, and the bytes that a file held for it, are gone. The application is
/// registered. On a locked layer nothing changes at all.
pub proof fn written_record_is_attached<S, C>(
    before: StudioView<S, C>,
    after: StudioView<S, C>,
    tab: int,
    open: bool,
    handle: Handle,
    record: ExtendedDataRecord,
    result: bool,
)
    requires
        0 <= tab < before.tabs.len(),
        before.tabs[tab].scene.document.spare(1),
        write_outcome(before, after, tab, open, handle, record, result),
    ensures
        ({
            let doc = before.tabs[tab].scene.document;
            let end = after.tabs[tab].scene.document;
            let name = record.application_name@;
            &&& result <==> doc.entity(handle) is Some && !locked(doc, handle)
            &&& locked(doc, handle) ==> after == before
            &&& !locked(doc, handle) ==> application_known(doc, end, name)
            &&& !result ==> end.entities == doc.entities && after.events == before.events
            &&& result ==> data_told(before, after, tab, open) && exists|place: int|
                {
                    let old_entity = doc.entities[place];
                    let entity = end.entities[place];
                    &&& #[trigger] one_entity_attached(doc, end, handle, place)
                    &&& records_on(entity).len() > 0
                    &&& records_on(entity).last() == record
                    &&& forall|other: ExtendedDataRecord| #[trigger]
                        records_on(entity).drop_last().contains(other) <==> records_on(
                            old_entity,
                        ).contains(other) && other.application_name@ != name
                    &&& forall|raw: RawRecord| #[trigger]
                        bytes_on(entity).contains(raw) <==> bytes_on(old_entity).contains(raw)
                            && !for_application(end, raw, name)
                }
        }),
{
    let doc = before.tabs[tab].scene.document;
    let end = after.tabs[tab].scene.document;
    let name = record.application_name@;
    if result {
        let registered = choose|registered: DocumentView| #[trigger]
            app_registered(doc, registered, name) && record_written(
                registered,
                end,
                handle,
                record,
            );
        seek_back_finds(doc.entities, doc.entities.len() as int, entity_with(handle));
        let place = doc.entity_place(handle)->Some_0;
        assert(entity_with(handle)(doc.entities[place]));
        let old_entity = doc.entities[place];
        let entity = end.entities[place];
        kept_records(records_on(old_entity), name);
        kept_bytes(registered, bytes_on(old_entity), name);
        assert(records_on(entity).drop_last() =~= passing(
            records_on(old_entity),
            record_of_another(name),
        ));
        assert(one_entity_attached(doc, end, handle, place));
    }
}

/// A record is removed exactly where the application attached something to the entity
/// and the entity is not on a locked layer. What the other applications attached stays.
/// Otherwise nothing changes at all.
pub proof fn removed_record_is_detached<S, C>(
    before: StudioView<S, C>,
    after: StudioView<S, C>,
    tab: int,
    open: bool,
    handle: Handle,
    name: Seq<char>,
    result: bool,
)
    requires
        0 <= tab < before.tabs.len(),
        removal_outcome(before, after, tab, open, handle, name, result),
    ensures
        ({
            let doc = before.tabs[tab].scene.document;
            let end = after.tabs[tab].scene.document;
            let found = doc.entity(handle)->Some_0;
            &&& result <==> {
                &&& doc.entity(handle) is Some
                &&& !locked(doc, handle)
                &&& (exists|k: int|
                    0 <= k < records_on(found).len() && (#[trigger] records_on(
                        found,
                    )[k]).application_name@ == name) || (exists|k: int|
                    0 <= k < bytes_on(found).len() && for_application(
                        doc,
                        #[trigger] bytes_on(found)[k],
                        name,
                    ))
            }
            &&& !result ==> after == before
            &&& result ==> data_told(before, after, tab, open) && end.app_ids == doc.app_ids
                && exists|place: int|
                {
                    let old_entity = doc.entities[place];
                    let entity = end.entities[place];
                    &&& #[trigger] one_entity_attached(doc, end, handle, place)
                    &&& forall|other: ExtendedDataRecord| #[trigger]
                        records_on(entity).contains(other) <==> records_on(old_entity).contains(
                            other,
                        ) && other.application_name@ != name
                    &&& forall|raw: RawRecord| #[trigger]
                        bytes_on(entity).contains(raw) <==> bytes_on(old_entity).contains(raw)
                            && !for_application(doc, raw, name)
                }
        }),
{
    let doc = before.tabs[tab].scene.document;
    let end = after.tabs[tab].scene.document;
    if doc.entity(handle) is Some {
        let found = doc.entity(handle)->Some_0;
        let of_records = record_of(name);
        let of_bytes = bytes_of(app_id(doc.app_ids, name));
        seek_finds(records_on(found), 0, of_records);
        seek_finds(bytes_on(found), 0, of_bytes);
        if seek(records_on(found), 0, of_records) is Some {
            let k = seek(records_on(found), 0, of_records)->Some_0;
            assert(of_records(records_on(found)[k]));
        } else {
            assert forall|k: int| 0 <= k < records_on(found).len() implies (#[trigger] records_on(
                found,
            )[k]).application_name@ != name by {
                assert(!of_records(records_on(found)[k]));
            }
        }
        if seek(bytes_on(found), 0, of_bytes) is Some {
            let k = seek(bytes_on(found), 0, of_bytes)->Some_0;
            assert(of_bytes(bytes_on(found)[k]));
            assert(for_application(doc, bytes_on(found)[k], name));
        } else {
            assert forall|k: int| 0 <= k < bytes_on(found).len() implies !for_application(
                doc,
                #[trigger] bytes_on(found)[k],
                name,
            ) by {
                assert(!of_bytes(bytes_on(found)[k]));
            }
        }
    }
    if result {
        seek_back_finds(doc.entities, doc.entities.len() as int, entity_with(handle));
        let place = doc.entity_place(handle)->Some_0;
        assert(entity_with(handle)(doc.entities[place]));
        kept_records(records_on(doc.entities[place]), name);
        kept_bytes(doc, bytes_on(doc.entities[place]), name);
        assert(one_entity_attached(doc, end, handle, place));
    }
}

/// The record is the first of the list that bears the name.
pub open spec fn first_record(list: Seq<ExtendedDataRecord>, name: Seq<char>, k: int) -> bool {
    &&& 0 <= k < list.len()
    &&& list[k].application_name@ == name
    &&& forall|j: int| 0 <= j < k ==> (#[trigger] list[j]).application_name@ != name
}

/// The record that an application attached to an entity is the first that bears its
/// name.
pub proof fn attached_record_is_found(doc: DocumentView, handle: Handle, name: Seq<char>)
    ensures
        record_at(doc, handle, name) is Some <==> doc.entity(handle) is Some && exists|k: int|
            0 <= k < records_on(doc.entity(handle)->Some_0).len() && (#[trigger] records_on(
                doc.entity(handle)->Some_0,
            )[k]).application_name@ == name,
        record_at(doc, handle, name) is Some ==> exists|k: int| #[trigger]
            first_record(records_on(doc.entity(handle)->Some_0), name, k) && records_on(
                doc.entity(handle)->Some_0,
            )[k] == record_at(doc, handle, name)->Some_0,
{
    if doc.entity(handle) is Some {
        let list = records_on(doc.entity(handle)->Some_0);
        let test = record_of(name);
        seek_finds(list, 0, test);
        if seek(list, 0, test) is Some {
            let k = seek(list, 0, test)->Some_0;
            assert(test(list[k]));
            assert forall|j: int| 0 <= j < k implies (#[trigger] list[j]).application_name@
                != name by {
                assert(!test(list[j]));
            }
            assert(first_record(list, name, k));
        } else {
            assert forall|k: int| 0 <= k < list.len() implies (
            #[trigger] list[k]).application_name@ != name by {
                assert(!test(list[k]));
            }
        }
    }
}

} // verus!
