//! Extended data: what applications attach to entities.

use crate::agree::share;
use crate::document::{entity_with, CadDocument, DocumentView};
use crate::entities::{
    EntityCommon, EntityType, ExtendedData, ExtendedDataRecord, RawRecord,
};
use crate::geometry::Handle;
use crate::outside::{app_id, app_ids};
use crate::records::table_key;
use crate::scene::{locked, redrawn};
use crate::search::{
    item, passing, passing_all, passing_holds, pick, seek, seek_back_finds, seek_finds,
};
use crate::session::{published, with_document, HostSession};
use crate::studio::{tab_changes, StudioView, TabView};
use crate::text::is_same;
use std::sync::Arc;
use vstd::prelude::*;
use vstd::string::*;

verus! {

/// The record belongs to the application.
pub open spec fn record_of(name: Seq<char>) -> spec_fn(ExtendedDataRecord) -> bool {
    |record: ExtendedDataRecord| record.application_name@ == name
}

/// The record belongs to another application.
pub open spec fn record_of_another(name: Seq<char>) -> spec_fn(ExtendedDataRecord) -> bool {
    |record: ExtendedDataRecord| record.application_name@ != name
}

/// The bytes belong to another application than the one with the handle.
pub open spec fn bytes_of_another(application: Option<u64>) -> spec_fn(RawRecord) -> bool {
    |raw: RawRecord| application != Some(raw.application)
}

/// The record that an application attached to an entity.
pub open spec fn record_at(doc: DocumentView, handle: Handle, name: Seq<char>) -> Option<
    ExtendedDataRecord,
> {
    match doc.entity(handle) {
        Some(entity) => pick(entity.common.extended_data.records@, record_of(name)),
        None => None,
    }
}

/// The application is registered: it was, or it is now, under the next handle.
pub open spec fn app_registered(before: DocumentView, after: DocumentView, name: Seq<char>) -> bool {
    after == if before.app_ids.contains_key(table_key(name)) {
        before
    } else {
        DocumentView {
            next_handle: (before.next_handle + 1) as u64,
            app_ids: before.app_ids.insert(table_key(name), before.next_handle),
            ..before
        }
    }
}

/// The entity with a handle has other extended data, and nothing else changed.
pub open spec fn data_replaced(
    before: DocumentView,
    after: DocumentView,
    handle: Handle,
    records: Seq<ExtendedDataRecord>,
    raw: Seq<RawRecord>,
) -> bool {
    before.entity_place(handle) matches Some(i) && {
        let changed = after.entities[i];
        &&& after == (DocumentView { entities: before.entities.update(i, changed), ..before })
        &&& changed == (EntityType {
            common: EntityCommon {
                extended_data: changed.common.extended_data,
                ..before.entities[i].common
            },
            ..before.entities[i]
        })
        &&& changed.common.extended_data.records@ == records
        &&& changed.common.extended_data.raw_dwg_eed@ == raw
    }
}

/// A record was attached: it comes behind those of the other applications, and
/// the bytes that a file held for its application are gone.
pub open spec fn record_written(
    before: DocumentView,
    after: DocumentView,
    handle: Handle,
    record: ExtendedDataRecord,
) -> bool {
    let name = record.application_name@;
    before.entity(handle) matches Some(entity) && data_replaced(
        before,
        after,
        handle,
        passing(entity.common.extended_data.records@, record_of_another(name)).push(record),
        passing(
            entity.common.extended_data.raw_dwg_eed@,
            bytes_of_another(app_id(before.app_ids, name)),
        ),
    )
}

/// The records and bytes of an application are gone.
pub open spec fn record_removed(
    before: DocumentView,
    after: DocumentView,
    handle: Handle,
    name: Seq<char>,
) -> bool {
    before.entity(handle) matches Some(entity) && data_replaced(
        before,
        after,
        handle,
        passing(entity.common.extended_data.records@, record_of_another(name)),
        passing(
            entity.common.extended_data.raw_dwg_eed@,
            bytes_of_another(app_id(before.app_ids, name)),
        ),
    )
}

/// The bytes belong to the application with the handle.
pub open spec fn bytes_of(application: Option<u64>) -> spec_fn(RawRecord) -> bool {
    |raw: RawRecord| application == Some(raw.application)
}

/// The application attached something to the entity.
pub open spec fn attached(doc: DocumentView, handle: Handle, name: Seq<char>) -> bool {
    doc.entity(handle) matches Some(entity) && (pick(
        entity.common.extended_data.records@,
        record_of(name),
    ) is Some || pick(
        entity.common.extended_data.raw_dwg_eed@,
        bytes_of(app_id(doc.app_ids, name)),
    ) is Some)
}

/// The records of the other applications.
#[verifier::loop_isolation(false)]
fn other_records(data: &ExtendedData, name: &str) -> (result: Vec<ExtendedDataRecord>)
    ensures
        result@ == passing(data.records@, record_of_another(name@)),
{
    let mut kept: Vec<ExtendedDataRecord> = Vec::new();
    let mut i: usize = 0;
    while i < data.records.len()
        invariant
            i <= data.records.len(),
            kept@ == passing(data.records@.take(i as int), record_of_another(name@)),
        decreases data.records.len() - i,
    {
        proof {
            assert(data.records@.take(i + 1).drop_last() =~= data.records@.take(i as int));
        }
        if !is_same(&data.records[i].application_name, name) {
            kept.push(data.records[i].copy());
        }
        i = i + 1;
    }
    proof {
        assert(data.records@.take(i as int) =~= data.records@);
    }
    kept
}

/// The bytes of the other applications.
#[verifier::loop_isolation(false)]
fn other_bytes(data: &ExtendedData, application: Option<u64>) -> (result: Vec<RawRecord>)
    ensures
        result@ == passing(data.raw_dwg_eed@, bytes_of_another(application)),
{
    let mut kept: Vec<RawRecord> = Vec::new();
    let mut i: usize = 0;
    while i < data.raw_dwg_eed.len()
        invariant
            i <= data.raw_dwg_eed.len(),
            kept@ == passing(data.raw_dwg_eed@.take(i as int), bytes_of_another(application)),
        decreases data.raw_dwg_eed.len() - i,
    {
        proof {
            assert(data.raw_dwg_eed@.take(i + 1).drop_last() =~= data.raw_dwg_eed@.take(i as int));
        }
        let same = match application {
            Some(value) => value == data.raw_dwg_eed[i].application,
            None => false,
        };
        if !same {
            kept.push(data.raw_dwg_eed[i].copy());
        }
        i = i + 1;
    }
    proof {
        assert(data.raw_dwg_eed@.take(i as int) =~= data.raw_dwg_eed@);
    }
    kept
}

fn has_bytes(data: &ExtendedData, application: Option<u64>) -> (result: bool)
    ensures
        result == (pick(data.raw_dwg_eed@, bytes_of(application)) is Some),
{
    let mut i: usize = 0;
    while i < data.raw_dwg_eed.len()
        invariant
            i <= data.raw_dwg_eed.len(),
            seek(data.raw_dwg_eed@, 0, bytes_of(application)) == seek(
                data.raw_dwg_eed@,
                i as int,
                bytes_of(application),
            ),
        decreases data.raw_dwg_eed.len() - i,
    {
        if let Some(value) = application {
            if value == data.raw_dwg_eed[i].application {
                return true;
            }
        }
        i = i + 1;
    }
    false
}

/// The record of an application.
fn find_record<'a>(data: &'a ExtendedData, name: &str) -> (result: Option<&'a ExtendedDataRecord>)
    ensures
        item(result) == pick(data.records@, record_of(name@)),
{
    let mut i: usize = 0;
    while i < data.records.len()
        invariant
            i <= data.records.len(),
            seek(data.records@, 0, record_of(name@)) == seek(
                data.records@,
                i as int,
                record_of(name@),
            ),
        decreases data.records.len() - i,
    {
        if is_same(&data.records[i].application_name, name) {
            return Some(&data.records[i]);
        }
        i = i + 1;
    }
    None
}

impl CadDocument {
    /// Registers an application under a handle. One that is registered keeps the
    /// handle that it has.
    pub fn register_app_id(&mut self, name: &str, handle: Handle)
        ensures
            final(self)@ == (DocumentView {
                app_ids: if old(self)@.app_ids.contains_key(table_key(name@)) {
                    old(self)@.app_ids
                } else {
                    old(self)@.app_ids.insert(table_key(name@), handle.value)
                },
                ..old(self)@
            }),
    {
        let mut ids = self.app_ids.copy();
        ids.register(name, handle.value);
        self.app_ids = Arc::new(ids);
    }

    /// Registers an application under a handle of its own, so that what it
    /// attaches can be found again in a file.
    pub fn ensure_app_id(&mut self, name: &str)
        requires
            old(self)@.spare(1),
        ensures
            app_registered(old(self)@, final(self)@, name@),
    {
        if !self.has_app_id(name) {
            let handle = self.allocate_handle();
            self.register_app_id(name, handle);
        }
    }

    /// Gives an entity other extended data.
    fn replace_data(
        &mut self,
        index: usize,
        records: Vec<ExtendedDataRecord>,
        raw_dwg_eed: Vec<RawRecord>,
    )
        requires
            index < old(self).entities.len(),
        ensures
            ({
                let changed = final(self)@.entities[index as int];
                let entity = old(self)@.entities[index as int];
                &&& final(self)@ == (DocumentView {
                    entities: old(self)@.entities.update(index as int, changed),
                    ..old(self)@
                })
                &&& changed == (EntityType {
                    common: EntityCommon {
                        extended_data: changed.common.extended_data,
                        ..entity.common
                    },
                    ..entity
                })
                &&& changed.common.extended_data.records@ == records@
                &&& changed.common.extended_data.raw_dwg_eed@ == raw_dwg_eed@
            }),
    {
        let entity = &self.entities[index];
        let changed = EntityType {
            common: EntityCommon {
                handle: entity.common.handle,
                layer: entity.common.layer.clone(),
                owner_handle: entity.common.owner_handle,
                on_paper: entity.common.on_paper,
                extended_data: Arc::new(ExtendedData { records, raw_dwg_eed }),
                look: share(&entity.common.look),
            },
            data: entity.data.copy(),
            record: share(&entity.record),
        };
        self.entities.set(index, changed);
    }

    /// Attaches a record to an entity, in place of any of the same application.
    fn put_record(&mut self, handle: Handle, record: ExtendedDataRecord) -> (result: bool)
        ensures
            result == (old(self)@.entity(handle) is Some),
            result ==> record_written(old(self)@, final(self)@, handle, record),
            !result ==> final(self)@ == old(self)@,
    {
        let index: usize = match self.find_entity(handle) {
            Some(index) => index,
            None => {
                return false;
            },
        };
        let application: Option<u64> = self.get_app_id(&record.application_name);
        let data = &self.entities[index].common.extended_data;
        let mut records = other_records(data, &record.application_name);
        let raw = other_bytes(data, application);
        records.push(record);
        self.replace_data(index, records, raw);
        true
    }

    /// Takes away what an application attached to an entity.
    fn drop_record(&mut self, handle: Handle, name: &str) -> (result: bool)
        ensures
            result == attached(old(self)@, handle, name@),
            result ==> record_removed(old(self)@, final(self)@, handle, name@),
            !result ==> final(self)@ == old(self)@,
    {
        let index: usize = match self.find_entity(handle) {
            Some(index) => index,
            None => {
                return false;
            },
        };
        let application: Option<u64> = self.get_app_id(name);
        let data = &self.entities[index].common.extended_data;
        if find_record(data, name).is_none() && !has_bytes(data, application) {
            return false;
        }
        let records = other_records(data, name);
        let raw = other_bytes(data, application);
        self.replace_data(index, records, raw);
        true
    }
}

/// The application after the extended data of a drawing changed.
pub open spec fn data_announced<S, C>(
    before: StudioView<S, C>,
    tab: int,
    open: bool,
    document: DocumentView,
) -> StudioView<S, C> {
    published(
        before.with_tab(
            tab,
            TabView {
                dirty: true,
                scene: redrawn(before.tabs[tab].scene, document),
                ..before.tabs[tab]
            },
        ),
        tab,
        open,
    )
}

/// What writing a record comes to. The application is registered, even where
/// there turns out to be no such entity; an entity on a locked layer is left
/// alone.
pub open spec fn write_outcome<S, C>(
    before: StudioView<S, C>,
    after: StudioView<S, C>,
    tab: int,
    open: bool,
    handle: Handle,
    record: ExtendedDataRecord,
    result: bool,
) -> bool {
    let doc = before.tabs[tab].scene.document;
    let changed = after.tabs[tab].scene.document;
    &&& result == (doc.entity(handle) is Some && !locked(doc, handle))
    &&& if locked(doc, handle) {
        after == before
    } else if !result {
        app_registered(doc, changed, record.application_name@) && after == with_document(
            before,
            tab,
            changed,
        )
    } else {
        &&& exists|registered: DocumentView| #[trigger]
            app_registered(doc, registered, record.application_name@) && record_written(
                registered,
                changed,
                handle,
                record,
            )
        &&& after == data_announced(before, tab, open, changed)
    }
}

/// What removing a record comes to.
pub open spec fn removal_outcome<S, C>(
    before: StudioView<S, C>,
    after: StudioView<S, C>,
    tab: int,
    open: bool,
    handle: Handle,
    name: Seq<char>,
    result: bool,
) -> bool {
    let doc = before.tabs[tab].scene.document;
    let changed = after.tabs[tab].scene.document;
    &&& result == (attached(doc, handle, name) && !locked(doc, handle))
    &&& if result {
        record_removed(doc, changed, handle, name) && after == data_announced(
            before,
            tab,
            open,
            changed,
        )
    } else {
        after == before
    }
}

impl<'a, S, C> HostSession<'a, S, C> {
    /// The record that an application attached to an entity.
    pub fn read_record(&self, handle: Handle, app_name: &str) -> (result: Option<
        &ExtendedDataRecord,
    >)
        requires
            self.valid(),
        ensures
            item(result) == record_at(self.doc(), handle, app_name@),
    {
        match self.app.tabs[self.tab].scene.document.get_entity(handle) {
            Some(entity) => find_record(&entity.common.extended_data, app_name),
            None => None,
        }
    }

    /// Attaches a record to an entity, in place of any of the same application.
    /// The application is registered, even where there turns out to be no such
    /// entity. The result is whether the record was attached: the entity may be
    /// missing, or its layer locked.
    pub fn write_record(&mut self, handle: Handle, record: ExtendedDataRecord) -> (result: bool)
        requires
            old(self).valid(),
            old(self).doc().spare(1),
        ensures
            write_outcome(
                old(self).state(),
                final(self).state(),
                old(self).tab as int,
                old(self).doc_store is Some,
                handle,
                record,
                result,
            ),
            final(self).continues(*old(self)),
            final(self).valid(),
            *final(final(self).app) == *final(old(self).app),
    {
        let ghost before = self.state();
        let ghost doc = self.doc();
        let ghost tabs = self.app.tabs@;
        let tab: usize = self.tab;
        if self.app.tabs[tab].scene.document.is_layer_locked(handle) {
            return false;
        }
        self.app.tabs[tab].scene.document.ensure_app_id(&record.application_name);
        let ghost registered = self.app.tabs@[tab as int]@.scene.document;
        proof {
            assert(app_registered(doc, registered, record.application_name@));
            tab_changes(tabs, self.app.tabs@, tab as int);
        }
        let written = self.app.tabs[tab].scene.document.put_record(handle, record);
        proof {
            tab_changes(tabs, self.app.tabs@, tab as int);
        }
        if !written {
            proof {
                assert(self.state().tabs =~= with_document(before, tab as int, self.doc()).tabs);
            }
            return false;
        }
        self.app.tabs[tab].scene.bump_geometry();
        self.app.tabs[tab].dirty = true;
        proof {
            tab_changes(tabs, self.app.tabs@, tab as int);
        }
        self.publish_document_view();
        true
    }

    /// Takes away what an application attached to an entity. The result is
    /// whether there was anything to take away, on a layer that is not locked.
    pub fn remove_record(&mut self, handle: Handle, app_name: &str) -> (result: bool)
        requires
            old(self).valid(),
        ensures
            removal_outcome(
                old(self).state(),
                final(self).state(),
                old(self).tab as int,
                old(self).doc_store is Some,
                handle,
                app_name@,
                result,
            ),
            final(self).continues(*old(self)),
            final(self).valid(),
            *final(final(self).app) == *final(old(self).app),
    {
        let ghost before = self.state();
        let ghost tabs = self.app.tabs@;
        let tab: usize = self.tab;
        if self.app.tabs[tab].scene.document.is_layer_locked(handle) {
            return false;
        }
        let dropped = self.app.tabs[tab].scene.document.drop_record(handle, app_name);
        proof {
            tab_changes(tabs, self.app.tabs@, tab as int);
        }
        if !dropped {
            proof {
                assert(self.state().tabs =~= before.tabs);
            }
            return false;
        }
        self.app.tabs[tab].scene.bump_geometry();
        self.app.tabs[tab].dirty = true;
        proof {
            tab_changes(tabs, self.app.tabs@, tab as int);
        }
        self.publish_document_view();
        true
    }
}

/// The entity with a handle after its extended data was replaced.
proof fn replaced_data_is_found(
    before: DocumentView,
    after: DocumentView,
    handle: Handle,
    records: Seq<ExtendedDataRecord>,
    raw: Seq<RawRecord>,
)
    requires
        data_replaced(before, after, handle, records, raw),
    ensures
        after.entity(handle) matches Some(entity) && entity.common.extended_data.records@ == records
            && entity.common.extended_data.raw_dwg_eed@ == raw,
{
    seek_back_finds(before.entities, before.entities.len() as int, entity_with(handle));
    seek_back_finds(after.entities, after.entities.len() as int, entity_with(handle));
    let i = before.entity_place(handle)->Some_0;
    assert(entity_with(handle)(after.entities[i]));
    if let Some(j) = after.entity_place(handle) {
        if j != i {
            assert(after.entities[j] == before.entities[j]);
        }
    }
}

/// The records of one application among those of the others.
proof fn others_are_kept(records: Seq<ExtendedDataRecord>, gone: Seq<char>, name: Seq<char>)
    ensures
        pick(passing(records, record_of_another(gone)), record_of(name)) == (if name == gone {
            None
        } else {
            pick(records, record_of(name))
        }),
    decreases records.len(),
{
    let rest = passing(records, record_of_another(gone));
    if records.len() > 0 {
        let front = records.drop_last();
        let front_rest = passing(front, record_of_another(gone));
        others_are_kept(front, gone, name);
        appending_keeps_pick(front, records.last(), name);
        assert(front.push(records.last()) =~= records);
        appending_keeps_pick(front_rest, records.last(), name);
    }
}

/// A record at the end is found where none before it is.
proof fn appending_keeps_pick(
    records: Seq<ExtendedDataRecord>,
    record: ExtendedDataRecord,
    name: Seq<char>,
)
    ensures
        pick(records.push(record), record_of(name)) == (if pick(records, record_of(name)) is Some {
            pick(records, record_of(name))
        } else if record.application_name@ == name {
            Some(record)
        } else {
            None
        }),
{
    let all = records.push(record);
    let test = record_of(name);
    seek_finds(records, 0, test);
    seek_finds(all, 0, test);
    match seek(records, 0, test) {
        Some(i) => {
            assert(test(all[i]));
            let j = seek(all, 0, test)->Some_0;
            if j < i {
                assert(test(records[j]));
            }
        },
        None => {
            if let Some(j) = seek(all, 0, test) {
                if j < records.len() {
                    assert(test(records[j]));
                }
            }
            if test(record) {
                assert(test(all[records.len() as int]));
            }
        },
    }
}

/// A record reads back as it was written, and the records of other applications
/// are as they were.
pub proof fn written_record_reads_back(
    before: DocumentView,
    after: DocumentView,
    handle: Handle,
    record: ExtendedDataRecord,
    name: Seq<char>,
)
    requires
        record_written(before, after, handle, record),
    ensures
        record_at(after, handle, record.application_name@) == Some(record),
        name != record.application_name@ ==> record_at(after, handle, name) == record_at(
            before,
            handle,
            name,
        ),
{
    let data = before.entity(handle)->Some_0.common.extended_data;
    let own = record.application_name@;
    let rest = passing(data.records@, record_of_another(own));
    replaced_data_is_found(
        before,
        after,
        handle,
        rest.push(record),
        passing(data.raw_dwg_eed@, bytes_of_another(app_id(before.app_ids, own))),
    );
    others_are_kept(data.records@, own, own);
    others_are_kept(data.records@, own, name);
    appending_keeps_pick(rest, record, own);
    appending_keeps_pick(rest, record, name);
}

/// A record that was removed is gone, a second removal finds nothing, and the
/// records of other applications are as they were.
pub proof fn removed_record_is_gone(
    before: DocumentView,
    after: DocumentView,
    handle: Handle,
    gone: Seq<char>,
    name: Seq<char>,
)
    requires
        record_removed(before, after, handle, gone),
    ensures
        record_at(after, handle, gone) is None,
        !attached(after, handle, gone),
        name != gone ==> record_at(after, handle, name) == record_at(before, handle, name),
{
    let data = before.entity(handle)->Some_0.common.extended_data;
    let application = app_id(before.app_ids, gone);
    let rest = passing(data.records@, record_of_another(gone));
    let raw = passing(data.raw_dwg_eed@, bytes_of_another(application));
    replaced_data_is_found(before, after, handle, rest, raw);
    others_are_kept(data.records@, gone, gone);
    others_are_kept(data.records@, gone, name);
    passing_holds(data.raw_dwg_eed@, bytes_of_another(application));
    seek_finds(raw, 0, bytes_of(application));
    if let Some(i) = seek(raw, 0, bytes_of(application)) {
        assert(bytes_of_another(application)(raw[i]));
    }
}

/// What a write that succeeds leaves: the record reads back, behind the records of
/// the other applications and once only, the application is registered and the
/// drawing is changed since it was saved. A write to an entity that is not there
/// changes no entity.
pub proof fn write_is_kept<S, C>(
    before: StudioView<S, C>,
    after: StudioView<S, C>,
    tab: int,
    open: bool,
    handle: Handle,
    record: ExtendedDataRecord,
    result: bool,
)
    requires
        0 <= tab < before.tabs.len(),
        write_outcome(before, after, tab, open, handle, record, result),
    ensures
        result == (before.tabs[tab].scene.document.entity(handle) is Some && !locked(
            before.tabs[tab].scene.document,
            handle,
        )),
        result ==> record_at(
            after.tabs[tab].scene.document,
            handle,
            record.application_name@,
        ) == Some(record),
        result ==> (before.tabs[tab].scene.document.entity(handle) matches Some(old_entity) && (
        after.tabs[tab].scene.document.entity(handle) matches Some(entity)
            && entity.common.extended_data.records@ == passing(
            old_entity.common.extended_data.records@,
            record_of_another(record.application_name@),
        ).push(record))),
        result ==> after.tabs[tab].scene.document.app_ids.contains_key(
            table_key(record.application_name@),
        ) && after.tabs[tab].dirty,
        !result ==> after.tabs[tab].scene.document.entities
            == before.tabs[tab].scene.document.entities,
{
    let doc = before.tabs[tab].scene.document;
    let changed = after.tabs[tab].scene.document;
    let name = record.application_name@;
    if result {
        let registered = choose|registered: DocumentView| #[trigger]
            app_registered(doc, registered, name) && record_written(
                registered,
                changed,
                handle,
                record,
            );
        assert(registered.entities == doc.entities);
        let data = doc.entity(handle)->Some_0.common.extended_data;
        written_record_reads_back(registered, changed, handle, record, name);
        replaced_data_is_found(
            registered,
            changed,
            handle,
            passing(data.records@, record_of_another(name)).push(record),
            passing(data.raw_dwg_eed@, bytes_of_another(app_id(registered.app_ids, name))),
        );
    }
}

/// A record that was just written can be removed: it is then gone, the records of
/// the other applications are kept in order, and a second removal finds nothing
/// and changes nothing.
pub proof fn written_record_can_be_removed<S, C>(
    before: StudioView<S, C>,
    written: StudioView<S, C>,
    after: StudioView<S, C>,
    later: StudioView<S, C>,
    tab: int,
    open: bool,
    handle: Handle,
    record: ExtendedDataRecord,
    result: bool,
    again: bool,
)
    requires
        0 <= tab < before.tabs.len(),
        write_outcome(before, written, tab, open, handle, record, true),
        removal_outcome(
            written,
            after,
            tab,
            open,
            handle,
            record.application_name@,
            result,
        ),
        removal_outcome(after, later, tab, open, handle, record.application_name@, again),
    ensures
        result,
        record_at(after.tabs[tab].scene.document, handle, record.application_name@) is None,
        before.tabs[tab].scene.document.entity(handle) matches Some(old_entity) && (
        after.tabs[tab].scene.document.entity(handle) matches Some(entity)
            && entity.common.extended_data.records@ == passing(
            old_entity.common.extended_data.records@,
            record_of_another(record.application_name@),
        )),
        !again,
        later == after,
{
    let doc = before.tabs[tab].scene.document;
    let middle = written.tabs[tab].scene.document;
    let end = after.tabs[tab].scene.document;
    let name = record.application_name@;
    write_is_kept(before, written, tab, open, handle, record, true);
    let registered = choose|registered: DocumentView| #[trigger]
        app_registered(doc, registered, name) && record_written(
            registered,
            middle,
            handle,
            record,
        );
    let old_records = doc.entity(handle)->Some_0.common.extended_data.records@;
    let others = passing(old_records, record_of_another(name));
    let entity = middle.entity(handle)->Some_0;
    seek_back_finds(registered.entities, registered.entities.len() as int, entity_with(handle));
    seek_back_finds(middle.entities, middle.entities.len() as int, entity_with(handle));
    let place = registered.entity_place(handle)->Some_0;
    assert(entity_with(handle)(middle.entities[place]));
    assert(middle.entity_place(handle) == Some(place)) by {
        if let Some(j) = middle.entity_place(handle) {
            if j != place {
                assert(middle.entities[j] == registered.entities[j]);
            }
        }
    }
    assert(entity.common.layer == doc.entity(handle)->Some_0.common.layer);
    assert(middle.layers == doc.layers);
    assert(locked(middle, handle) == locked(doc, handle));
    removed_record_is_gone(middle, end, handle, name, name);
    replaced_data_is_found(
        middle,
        end,
        handle,
        passing(entity.common.extended_data.records@, record_of_another(name)),
        passing(
            entity.common.extended_data.raw_dwg_eed@,
            bytes_of_another(app_id(middle.app_ids, name)),
        ),
    );
    assert(others.push(record).drop_last() =~= others);
    passing_holds(old_records, record_of_another(name));
    passing_all(others, record_of_another(name));
    assert(passing(others.push(record), record_of_another(name)) == others);
}

} // verus!
