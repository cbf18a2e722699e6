//! Adding, replacing and removing entities on behalf of a script.

use crate::attributes::{
    attribute_attached, attribute_dropped, attribute_in, attribute_other_than, attribute_replaced,
    attribute_slot, attribute_with, find_attribute, model_entity, nested, reattributed, single,
    stores, with_attribute, with_attribute_at, without_attribute,
};
use crate::document::{entity_with, CadDocument, DocumentView};
use crate::entities::{AttributeRecord, EntityCommon, EntityData, EntityType};
use crate::geometry::Handle;
use crate::images::{image_fault, image_prepared, preparing_keeps_entities, ImageFile};
use crate::normalize::{id_left, normalized, normalizing_keeps_identity, Derived};
use crate::reference_rules::owning_insert;
use crate::scene::{
    entity_added, entity_replaced, erased, layer_registered, placed_handle, redrawn, Scene,
    SceneView,
};
use crate::search::{
    passing, passing_all, passing_holds, passing_keeps_found, pick, reversed, seek, seek_back,
    seek_back_finds, seek_finds,
};
use crate::session::{published, with_document, with_scene, HostSession};
use crate::studio::{tab_changes, StudioView};
use vstd::prelude::*;

verus! {

/// An entity from a script, with what the geometry engine derives for it and,
/// where it is an image, what was read of its file.
pub struct Scripted {
    pub entity: EntityType,
    pub derived: Derived,
    pub file: Result<ImageFile, String>,
}

impl Scripted {
    /// The engine answered for the entity.
    pub open spec fn answered(self) -> bool {
        self.derived.fits(self.entity.data)
    }
}

/// An attribute entity as a block reference stores it.
pub open spec fn as_record(entity: EntityType) -> AttributeRecord {
    AttributeRecord {
        common: entity.common,
        value: entity.data->AttributeEntity_0,
        record: entity.record,
    }
}

/// The scene with another drawing, and plugins know of it.
pub open spec fn announced<S, C>(
    before: StudioView<S, C>,
    tab: int,
    open: bool,
    document: DocumentView,
) -> StudioView<S, C> {
    published(
        with_scene(before, tab, redrawn(before.tabs[tab].scene, document)),
        tab,
        open,
    )
}

/// What adding an attribute comes to. Its owner has to be a block reference that
/// has no attribute with the handle yet.
pub open spec fn attribute_outcome<S, C>(
    before: StudioView<S, C>,
    after: StudioView<S, C>,
    tab: int,
    open: bool,
    entity: EntityType,
    result: Handle,
) -> bool {
    let doc = before.tabs[tab].scene.document;
    let handle = placed_handle(doc, entity);
    let numbered = if entity.common.handle.null() {
        DocumentView { next_handle: (doc.next_handle + 1) as u64, ..doc }
    } else {
        doc
    };
    match owning_insert(doc, entity.common.owner_handle) {
        None => result.null() && after == before,
        Some(insert) => if pick(insert.attributes@, attribute_with(handle)) is Some {
            result.null() && after == with_document(before, tab, numbered)
        } else {
            let attribute = as_record(
                EntityType {
                    common: EntityCommon { handle, ..entity.common },
                    ..entity
                },
            );
            let changed = after.tabs[tab].scene.document;
            &&& result == handle
            &&& attribute_attached(numbered, changed, attribute)
            &&& after == announced(before, tab, open, changed)
        },
    }
}

/// What adding any other entity comes to.
pub open spec fn entity_outcome<S, C>(
    before: StudioView<S, C>,
    after: StudioView<S, C>,
    tab: int,
    open: bool,
    prepared: DocumentView,
    ready: EntityType,
    result: Handle,
) -> bool {
    let changed = after.tabs[tab].scene.document;
    &&& entity_added(prepared, changed, ready)
    &&& result == changed.entities.last().common.handle
    &&& after == announced(before, tab, open, changed)
}

/// What a script that adds an entity gets. Where its image cannot be read or the
/// engine refuses it, nothing changes.
pub open spec fn added<S, C>(
    before: StudioView<S, C>,
    after: StudioView<S, C>,
    tab: int,
    open: bool,
    scripted: Scripted,
    result: Handle,
) -> bool {
    let doc = before.tabs[tab].scene.document;
    if image_fault(scripted.entity, scripted.file) is Some || scripted.derived is Refused {
        result.null() && after == before
    } else {
        exists|prepared: DocumentView, linked: EntityType, ready: EntityType|
            {
                &&& #[trigger] image_prepared(
                    doc,
                    prepared,
                    scripted.entity,
                    linked,
                    scripted.file,
                )
                &&& #[trigger] normalized(prepared, None, linked, ready, scripted.derived)
                &&& if ready.data is AttributeEntity {
                    attribute_outcome(before, after, tab, open, ready, result)
                } else {
                    entity_outcome(before, after, tab, open, prepared, ready, result)
                }
            }
    }
}

impl<'a, S, C> HostSession<'a, S, C> {
    /// Adds an entity to the drawing. The result is its handle, or the null
    /// handle where it could not be added.
    pub fn add_entity(&mut self, scripted: Scripted) -> (result: Handle)
        requires
            old(self).valid(),
            old(self).doc().spare(4),
            scripted.entity.common.handle.value < u64::MAX,
            scripted.answered(),
            id_left(old(self).doc(), scripted.entity),
        ensures
            added(
                old(self).state(),
                final(self).state(),
                old(self).tab as int,
                old(self).doc_store is Some,
                scripted,
                result,
            ),
            final(self).continues(*old(self)),
            final(self).valid(),
            *final(final(self).app) == *final(old(self).app),
    {
        let ghost before = self.state();
        let ghost doc = self.doc();
        let ghost tabs = self.app.tabs@;
        let ghost given = scripted;
        let tab: usize = self.tab;
        let Scripted { entity, derived, file } = scripted;
        let mut entity = entity;
        let null = Handle { value: 0 };
        let image = self.app.tabs[tab].scene.document.prepare_scripted_raster_image(
            &mut entity,
            &file,
        );
        proof {
            tab_changes(tabs, self.app.tabs@, tab as int);
        }
        if image.is_err() {
            proof {
                assert(self.state().tabs =~= before.tabs);
            }
            return null;
        }
        let ghost prepared = self.doc();
        let ghost linked = entity;
        let ghost tabs = self.app.tabs@;
        proof {
            preparing_keeps_entities(doc, prepared, given.entity, linked, file);
        }
        let ghost answer = derived;
        let normal = self.app.tabs[tab].scene.document.normalize_scripted_entity(
            None,
            &mut entity,
            derived,
        );
        if normal.is_err() {
            proof {
                assert(self.state().tabs =~= before.tabs);
            }
            return null;
        }
        let ghost ready = entity;
        proof {
            normalizing_keeps_identity(prepared, None, linked, ready, answer);
            assert(normalized(prepared, None, linked, ready, given.derived));
        }
        if let EntityData::AttributeEntity(value) = &entity.data {
            proof {
                assert(prepared == doc);
                assert(self.state().tabs =~= before.tabs);
            }
            let owner = entity.common.owner_handle;
            let insert = match self.app.tabs[tab].scene.document.get_entity(owner) {
                Some(found) => found.copy(),
                None => {
                    return null;
                },
            };
            let taken: bool;
            let mut common = entity.common.copy();
            match &insert.data {
                EntityData::Insert(old_insert) => {
                    if common.handle.is_null() {
                        common.handle = self.app.tabs[tab].scene.document.allocate_handle();
                    }
                    proof {
                        tab_changes(tabs, self.app.tabs@, tab as int);
                    }
                    taken = find_attribute(&old_insert.attributes, common.handle).is_some();
                },
                _ => {
                    return null;
                },
            }
            let ghost numbered = self.doc();
            let ghost tabs = self.app.tabs@;
            if taken {
                proof {
                    assert(self.state().tabs =~= with_document(before, tab as int, numbered).tabs);
                }
                return null;
            }
            let handle = common.handle;
            let attribute = AttributeRecord {
                common,
                value: crate::agree::share(value),
                record: crate::agree::share(&entity.record),
            };
            let ghost record = attribute;
            let changed = with_attribute(&insert, attribute);
            let ghost replacement = changed;
            let updated = self.app.tabs[tab].scene.update_entity(changed);
            proof {
                crate::search::seek_back_finds(
                    doc.entities,
                    doc.entities.len() as int,
                    crate::document::entity_with(owner),
                );
                assert(updated);
                assert(entity_replaced(numbered, self.doc(), replacement));
                tab_changes(tabs, self.app.tabs@, tab as int);
                assert(self.state().tabs =~= with_scene(
                    before,
                    tab as int,
                    redrawn(before.tabs[tab as int].scene, self.doc()),
                ).tabs);
            }
            if !updated {
                return null;
            }
            self.publish_document_view();
            return handle;
        }
        let handle = self.app.tabs[tab].scene.add_entity(entity);
        proof {
            tab_changes(tabs, self.app.tabs@, tab as int);
            assert(self.state().tabs =~= with_scene(
                before,
                tab as int,
                redrawn(before.tabs[tab as int].scene, self.doc()),
            ).tabs);
        }
        self.publish_document_view();
        handle
    }
}

/// The entity has something to replace in the drawing: an attribute one in the
/// block reference that owns it, any other entity one with its handle.
pub open spec fn replaces(doc: DocumentView, entity: EntityType) -> bool {
    if entity.data is AttributeEntity {
        attribute_slot(doc, entity.common.owner_handle, entity.common.handle) is Some
    } else {
        doc.entity(entity.common.handle) is Some
    }
}

/// The entity took the place of what it replaces.
pub open spec fn entity_applied(before: DocumentView, after: DocumentView, entity: EntityType) -> bool {
    if entity.data is AttributeEntity {
        attribute_replaced(before, after, as_record(entity))
    } else {
        entity_replaced(before, after, entity)
    }
}

impl Scene {
    /// Puts an attribute in the place of the one with its handle, in the block
    /// reference that owns it.
    pub(crate) fn replace_nested_attribute(&mut self, attribute: AttributeRecord) -> (result: bool)
        requires
            old(self)@.document.spare(1),
        ensures
            result == (attribute_slot(
                old(self)@.document,
                attribute.common.owner_handle,
                attribute.common.handle,
            ) is Some),
            result ==> attribute_replaced(old(self)@.document, final(self)@.document, attribute),
            result ==> final(self)@ == redrawn(old(self)@, final(self)@.document),
            !result ==> final(self)@ == old(self)@,
    {
        let ghost before = self@.document;
        let owner = attribute.common.owner_handle;
        let changed: EntityType = match self.document.get_entity(owner) {
            Some(entity) => match &entity.data {
                EntityData::Insert(insert) => match find_attribute(
                    &insert.attributes,
                    attribute.common.handle,
                ) {
                    Some(slot) => with_attribute_at(entity, slot, attribute),
                    None => {
                        return false;
                    },
                },
                _ => {
                    return false;
                },
            },
            None => {
                return false;
            },
        };
        let ghost replacement = changed;
        let updated = self.update_entity(changed);
        proof {
            crate::search::seek_back_finds(
                before.entities,
                before.entities.len() as int,
                crate::document::entity_with(owner),
            );
            assert(entity_replaced(before, self@.document, replacement));
        }
        updated
    }

    /// Puts an entity in the place of what it replaces.
    pub(crate) fn apply_entity(&mut self, entity: EntityType) -> (result: bool)
        requires
            old(self)@.document.spare(1),
        ensures
            result == replaces(old(self)@.document, entity),
            result ==> entity_applied(old(self)@.document, final(self)@.document, entity),
            result ==> final(self)@ == redrawn(old(self)@, final(self)@.document),
            !result ==> final(self)@ == old(self)@,
    {
        if let EntityData::AttributeEntity(value) = &entity.data {
            let attribute = AttributeRecord {
                common: entity.common.copy(),
                value: crate::agree::share(value),
                record: crate::agree::share(&entity.record),
            };
            self.replace_nested_attribute(attribute)
        } else {
            self.update_entity(entity)
        }
    }
}

/// What a script that replaces an entity gets.
pub open spec fn updated<S, C>(
    before: StudioView<S, C>,
    after: StudioView<S, C>,
    tab: int,
    open: bool,
    scripted: Scripted,
    result: bool,
) -> bool {
    let doc = before.tabs[tab].scene.document;
    let old_entity = doc.entity(scripted.entity.common.handle);
    if scripted.derived is Refused {
        !result && after == before
    } else {
        exists|ready: EntityType|
            {
                &&& #[trigger] normalized(doc, old_entity, scripted.entity, ready, scripted.derived)
                &&& result == replaces(doc, ready)
                &&& if result {
                    let changed = after.tabs[tab].scene.document;
                    entity_applied(doc, changed, ready) && after == announced(
                        before,
                        tab,
                        open,
                        changed,
                    )
                } else {
                    after == before
                }
            }
    }
}

/// What removing an entity comes to. An attribute leaves the block reference
/// that owns it; an entity on a locked layer stays.
pub open spec fn removed<S, C>(
    before: StudioView<S, C>,
    after: StudioView<S, C>,
    tab: int,
    open: bool,
    handle: Handle,
    result: bool,
) -> bool {
    let doc = before.tabs[tab].scene.document;
    let scene = before.tabs[tab].scene;
    if doc.entity(handle) is Some {
        let without = with_scene(before, tab, erased(scene, seq![handle]));
        &&& result == !crate::scene::locked(doc, handle)
        &&& after == if result {
            published(without, tab, open)
        } else {
            without
        }
    } else {
        match nested(doc, handle) {
            None => !result && after == before,
            Some(attribute) => if owning_insert(doc, attribute.common.owner_handle) is None {
                !result && after == before
            } else {
                let changed = after.tabs[tab].scene.document;
                &&& result
                &&& attribute_dropped(doc, changed, attribute.common.owner_handle, handle)
                &&& after == announced(before, tab, open, changed)
            },
        }
    }
}

/// Erasing an entity leaves none with its handle, unless its layer is locked.
pub proof fn erasing_removes(scene: SceneView, handle: Handle)
    requires
        scene.document.entity(handle) is Some,
    ensures
        erased(scene, seq![handle]).document.entity(handle) is None <==> !crate::scene::locked(
            scene.document,
            handle,
        ),
{
    let doc = scene.document;
    let handles = seq![handle];
    let test = crate::scene::kept(doc, handles);
    let after = erased(scene, handles).document;
    assert(handles[0] == handle);
    assert(handles.contains(handle));
    crate::search::passing_holds(doc.entities, test);
    crate::search::seek_back_finds(
        after.entities,
        after.entities.len() as int,
        crate::document::entity_with(handle),
    );
    crate::search::seek_back_finds(
        doc.entities,
        doc.entities.len() as int,
        crate::document::entity_with(handle),
    );
    if crate::scene::locked(doc, handle) {
        let found = doc.entity(handle)->Some_0;
        assert(doc.entities.contains(found));
        assert(test(found));
        assert(after.entities.contains(found));
        let i = choose|i: int| 0 <= i < after.entities.len() && after.entities[i] == found;
        assert(crate::document::entity_with(handle)(after.entities[i]));
    } else if let Some(i) = after.entity_place(handle) {
        assert(test(after.entities[i]));
        assert(crate::document::entity_with(handle)(after.entities[i]));
    }
}

/// The drawing after a removal holds what it held before, but for the entity or
/// the attribute with the handle: any other entity is as it was, and a block
/// reference that lost an attribute keeps its others, in order.
pub open spec fn rest_kept(before: DocumentView, after: DocumentView, handle: Handle) -> bool {
    forall|other: Handle|
        other != handle ==> match before.entity(other) {
            None => #[trigger] after.entity(other) is None,
            Some(entity) => #[trigger] after.entity(other) matches Some(found) && if attribute_in(
                entity,
                handle,
            ) is None {
                found == entity
            } else {
                entity.data matches EntityData::Insert(insert) && reattributed(
                    entity,
                    found,
                    passing(insert.attributes@, attribute_other_than(handle)),
                )
            },
        }
}

/// An attribute that left its block reference is gone, and nothing else is.
proof fn dropping_removes(
    before: DocumentView,
    after: DocumentView,
    attribute: AttributeRecord,
    handle: Handle,
)
    requires
        single(before, handle),
        before.entity(handle) is None,
        nested(before, handle) == Some(attribute),
        attribute_dropped(before, after, attribute.common.owner_handle, handle),
    ensures
        model_entity(after, handle) is None,
        rest_kept(before, after, handle),
{
    let owner = attribute.common.owner_handle;
    seek_finds(before.entities, 0, stores(handle));
    let i = seek(before.entities, 0, stores(handle))->Some_0;
    assert(attribute_in(before.entities[i], handle) == Some(attribute));
    assert(stores(handle)(before.entities[i]));
    assert(before.entity_place(owner) == Some(i));
    let insert = owning_insert(before, owner)->Some_0;
    let left = passing(insert.attributes@, attribute_other_than(handle));
    let changed = choose|changed: EntityType| #[trigger]
        entity_replaced(before, after, changed) && (before.entity(owner) matches Some(found)
            && reattributed(found, changed, left));
    seek_back_finds(before.entities, before.entities.len() as int, entity_with(owner));
    assert(after.entities =~= before.entities.update(i, changed));
    passing_holds(insert.attributes@, attribute_other_than(handle));
    seek_finds(left, 0, attribute_with(handle));
    if let Some(k) = seek(left, 0, attribute_with(handle)) {
        assert(attribute_other_than(handle)(left[k]));
    }
    assert(attribute_in(after.entities[i], handle) is None);
    seek_finds(after.entities, 0, stores(handle));
    if let Some(j) = seek(after.entities, 0, stores(handle)) {
        assert(attribute_in(before.entities[j], handle) is Some);
    }
    assert forall|other: Handle| #[trigger] after.entity_place(other) == before.entity_place(
        other,
    ) by {
        same_handles_same_places(before.entities, after.entities, other);
    }
    assert(after.entity_place(handle) == before.entity_place(handle));
    assert forall|other: Handle| other != handle implies match before.entity(other) {
        None => #[trigger] after.entity(other) is None,
        Some(entity) => #[trigger] after.entity(other) matches Some(found) && if attribute_in(
            entity,
            handle,
        ) is None {
            found == entity
        } else {
            entity.data matches EntityData::Insert(insert) && reattributed(
                entity,
                found,
                passing(insert.attributes@, attribute_other_than(handle)),
            )
        },
    } by {
        assert(after.entity_place(other) == before.entity_place(other));
        seek_back_finds(before.entities, before.entities.len() as int, entity_with(other));
    }
}

/// Lists with the same handles hold them in the same places.
proof fn same_handles_same_places(a: Seq<EntityType>, b: Seq<EntityType>, handle: Handle)
    requires
        a.len() == b.len(),
        forall|i: int|
            0 <= i < a.len() ==> (#[trigger] a[i]).common.handle == b[i].common.handle,
    ensures
        seek_back(a, a.len() as int, entity_with(handle)) == seek_back(
            b,
            b.len() as int,
            entity_with(handle),
        ),
{
    let test = entity_with(handle);
    seek_back_finds(a, a.len() as int, test);
    seek_back_finds(b, b.len() as int, test);
    if let Some(i) = seek_back(a, a.len() as int, test) {
        assert(test(b[i]));
    }
    if let Some(i) = seek_back(b, b.len() as int, test) {
        assert(a[i].common.handle == b[i].common.handle);
        assert(test(a[i]));
    }
}

/// An entity that was erased is gone, and nothing else is.
proof fn erasing_keeps_the_rest(scene: SceneView, handle: Handle)
    requires
        single(scene.document, handle),
        scene.document.entity(handle) is Some,
        !crate::scene::locked(scene.document, handle),
    ensures
        model_entity(erased(scene, seq![handle]).document, handle) is None,
        rest_kept(scene.document, erased(scene, seq![handle]).document, handle),
{
    let doc = scene.document;
    let handles = seq![handle];
    let keep = crate::scene::kept(doc, handles);
    let after = erased(scene, handles).document;
    erasing_removes(scene, handle);
    passing_holds(doc.entities, keep);
    assert forall|i: int| 0 <= i < doc.entities.len() implies attribute_in(
        #[trigger] doc.entities[i],
        handle,
    ) is None by {
    }
    seek_finds(after.entities, 0, stores(handle));
    if let Some(j) = seek(after.entities, 0, stores(handle)) {
        assert(doc.entities.contains(after.entities[j]));
        let i = choose|i: int| 0 <= i < doc.entities.len() && doc.entities[i] == after.entities[j];
        assert(attribute_in(doc.entities[i], handle) is None);
    }
    assert forall|other: Handle| other != handle implies #[trigger] after.entity(other)
        == doc.entity(other) by {
        let test = entity_with(other);
        assert forall|i: int| 0 <= i < doc.entities.len() && test(
            #[trigger] doc.entities[i],
        ) implies keep(doc.entities[i]) by {
            assert(!handles.contains(other)) by {
                assert(handles[0] == handle);
            }
        }
        passing_keeps_found(doc.entities, keep, test);
    }
    assert forall|other: Handle| other != handle && doc.entity(other) is Some implies attribute_in(
        (#[trigger] doc.entity(other))->Some_0,
        handle,
    ) is None by {
        seek_back_finds(doc.entities, doc.entities.len() as int, entity_with(other));
    }
    assert forall|other: Handle| other != handle implies match doc.entity(other) {
        None => #[trigger] after.entity(other) is None,
        Some(entity) => #[trigger] after.entity(other) matches Some(found) && if attribute_in(
            entity,
            handle,
        ) is None {
            found == entity
        } else {
            entity.data matches EntityData::Insert(insert) && reattributed(
                entity,
                found,
                passing(insert.attributes@, attribute_other_than(handle)),
            )
        },
    } by {
        assert(after.entity(other) == doc.entity(other));
    }
}

/// There is something to remove: an entity on a layer that is not locked, or an
/// attribute whose owner is there.
pub open spec fn removable(doc: DocumentView, handle: Handle) -> bool {
    if doc.entity(handle) is Some {
        !crate::scene::locked(doc, handle)
    } else {
        nested(doc, handle) matches Some(attribute) && owning_insert(
            doc,
            attribute.common.owner_handle,
        ) is Some
    }
}

/// A removal takes away the entity or the attribute with the handle and nothing
/// else, and a second one finds nothing. It fails where there is no such thing, an
/// entity is on a locked layer, or an attribute has lost its owner, and then the
/// drawing is as it was.
pub proof fn removal_is_complete<S, C>(
    before: StudioView<S, C>,
    after: StudioView<S, C>,
    later: StudioView<S, C>,
    tab: int,
    open: bool,
    handle: Handle,
    result: bool,
    again: bool,
)
    requires
        0 <= tab < before.tabs.len(),
        single(before.tabs[tab].scene.document, handle),
        removed(before, after, tab, open, handle, result),
        removed(after, later, tab, open, handle, again),
    ensures
        result == removable(before.tabs[tab].scene.document, handle),
        result ==> model_entity(after.tabs[tab].scene.document, handle) is None,
        result ==> rest_kept(
            before.tabs[tab].scene.document,
            after.tabs[tab].scene.document,
            handle,
        ),
        result ==> !again && later == after,
        !result ==> after.tabs[tab].scene.document == before.tabs[tab].scene.document,
{
    let scene = before.tabs[tab].scene;
    let doc = scene.document;
    if doc.entity(handle) is Some {
        if crate::scene::locked(doc, handle) {
            let handles = seq![handle];
            let keep = crate::scene::kept(doc, handles);
            assert forall|i: int| 0 <= i < doc.entities.len() implies keep(
                #[trigger] doc.entities[i],
            ) by {
                if handles.contains(doc.entities[i].common.handle) {
                    assert(doc.entities[i].common.handle == handle);
                }
            }
            passing_all(doc.entities, keep);
        } else {
            erasing_keeps_the_rest(scene, handle);
            assert(after.tabs[tab].scene.document == erased(scene, seq![handle]).document);
        }
    } else if let Some(attribute) = nested(doc, handle) {
        seek_finds(doc.entities, 0, stores(handle));
        let i = seek(doc.entities, 0, stores(handle))->Some_0;
        assert(attribute_in(doc.entities[i], handle) == Some(attribute));
        if result {
            dropping_removes(doc, after.tabs[tab].scene.document, attribute, handle);
        }
    }
}

impl<'a, S, C> HostSession<'a, S, C> {
    /// Puts an entity in the place of the one with its handle. The result is
    /// whether there was one.
    pub fn update_entity(&mut self, scripted: Scripted) -> (result: bool)
        requires
            old(self).valid(),
            old(self).doc().spare(1),
            scripted.answered(),
            old(self).doc().entity(scripted.entity.common.handle) is None ==> id_left(
                old(self).doc(),
                scripted.entity,
            ),
        ensures
            updated(
                old(self).state(),
                final(self).state(),
                old(self).tab as int,
                old(self).doc_store is Some,
                scripted,
                result,
            ),
            final(self).continues(*old(self)),
            final(self).valid(),
            *final(final(self).app) == *final(old(self).app),
    {
        let ghost before = self.state();
        let ghost doc = self.doc();
        let ghost tabs = self.app.tabs@;
        let ghost given = scripted;
        let tab: usize = self.tab;
        let Scripted { entity, derived, file: _ } = scripted;
        let mut entity = entity;
        let previous = match self.app.tabs[tab].scene.document.get_entity(entity.common.handle) {
            Some(found) => Some(found.copy()),
            None => None,
        };
        let normal = self.app.tabs[tab].scene.document.normalize_scripted_entity(
            previous.as_ref(),
            &mut entity,
            derived,
        );
        if normal.is_err() {
            return false;
        }
        let ghost ready = entity;
        proof {
            assert(normalized(
                doc,
                doc.entity(given.entity.common.handle),
                given.entity,
                ready,
                given.derived,
            ));
        }
        let applied = self.app.tabs[tab].scene.apply_entity(entity);
        proof {
            tab_changes(tabs, self.app.tabs@, tab as int);
        }
        if applied {
            proof {
                assert(self.state().tabs =~= with_scene(
                    before,
                    tab as int,
                    redrawn(before.tabs[tab as int].scene, self.doc()),
                ).tabs);
            }
            self.publish_document_view();
        } else {
            proof {
                assert(self.state().tabs =~= before.tabs);
            }
        }
        applied
    }

    /// Removes the entity with a handle, or the attribute that a block reference
    /// stores under it. The result is whether anything was removed: there may be
    /// no such entity, or its layer may be locked.
    pub fn remove_entity(&mut self, handle: Handle) -> (result: bool)
        requires
            old(self).valid(),
            old(self).doc().spare(1),
        ensures
            removed(
                old(self).state(),
                final(self).state(),
                old(self).tab as int,
                old(self).doc_store is Some,
                handle,
                result,
            ),
            final(self).continues(*old(self)),
            final(self).valid(),
            *final(final(self).app) == *final(old(self).app),
    {
        let ghost before = self.state();
        let ghost doc = self.doc();
        let ghost tabs = self.app.tabs@;
        let tab: usize = self.tab;
        if self.app.tabs[tab].scene.document.get_entity(handle).is_none() {
            let owner = match self.app.tabs[tab].scene.document.nested_attribute(handle) {
                Some(attribute) => attribute.common.owner_handle,
                None => {
                    return false;
                },
            };
            let changed: EntityType = match self.app.tabs[tab].scene.document.get_entity(owner) {
                Some(entity) => match &entity.data {
                    EntityData::Insert(_) => without_attribute(entity, handle),
                    _ => {
                        return false;
                    },
                },
                None => {
                    return false;
                },
            };
            let ghost replacement = changed;
            let dropped = self.app.tabs[tab].scene.update_entity(changed);
            proof {
                crate::search::seek_back_finds(
                    doc.entities,
                    doc.entities.len() as int,
                    crate::document::entity_with(owner),
                );
                assert(entity_replaced(doc, self.doc(), replacement));
                tab_changes(tabs, self.app.tabs@, tab as int);
                assert(self.state().tabs =~= with_scene(
                    before,
                    tab as int,
                    redrawn(before.tabs[tab as int].scene, self.doc()),
                ).tabs);
            }
            if dropped {
                self.publish_document_view();
            }
            return dropped;
        }
        let mut handles: Vec<Handle> = Vec::new();
        handles.push(handle);
        self.app.tabs[tab].scene.erase_entities(&handles);
        proof {
            assert(handles@ =~= seq![handle]);
            erasing_removes(before.tabs[tab as int].scene, handle);
            tab_changes(tabs, self.app.tabs@, tab as int);
            assert(self.state().tabs =~= with_scene(
                before,
                tab as int,
                erased(before.tabs[tab as int].scene, seq![handle]),
            ).tabs);
        }
        let gone = self.app.tabs[tab].scene.document.get_entity(handle).is_none();
        if gone {
            self.publish_document_view();
        }
        gone
    }
}

/// Each entity was added to what the ones before it left.
pub open spec fn added_in_steps(
    steps: Seq<DocumentView>,
    entities: Seq<EntityType>,
    handles: Seq<Handle>,
) -> bool {
    &&& steps.len() == entities.len() + 1
    &&& handles.len() == entities.len()
    &&& forall|i: int|
        0 <= i < entities.len() ==> {
            &&& entity_added(steps[i], steps[i + 1], #[trigger] entities[i])
            &&& handles[i] == steps[i + 1].entities.last().common.handle
        }
}

/// Entities were added one after the other, and these are their handles.
pub open spec fn all_added(
    before: DocumentView,
    after: DocumentView,
    entities: Seq<EntityType>,
    handles: Seq<Handle>,
) -> bool {
    exists|steps: Seq<DocumentView>| #[trigger]
        added_in_steps(steps, entities, handles) && steps[0] == before && steps.last() == after
}

/// The handles that adding entities may take still fit.
pub open spec fn roomy(doc: DocumentView, entities: Seq<EntityType>, count: int) -> bool {
    &&& doc.spare(count)
    &&& forall|i: int|
        0 <= i < entities.len() ==> (#[trigger] entities[i]).common.handle.value + count + 1
            <= u64::MAX
}

impl Scene {
    /// Adds entities. The geometry is marked as changed once.
    #[verifier::loop_isolation(false)]
    pub fn add_entities(&mut self, entities: Vec<EntityType>) -> (result: Vec<Handle>)
        requires
            roomy(old(self)@.document, entities@, 2 * entities.len() as int),
        ensures
            all_added(old(self)@.document, final(self)@.document, entities@, result@),
            final(self)@ == redrawn(old(self)@, final(self)@.document),
    {
        let ghost before = self@;
        let mut handles: Vec<Handle> = Vec::new();
        let mut i: usize = 0;
        let ghost steps = seq![before.document];
        while i < entities.len()
            invariant
                i <= entities.len(),
                added_in_steps(steps, entities@.take(i as int), handles@),
                steps[0] == before.document,
                steps.last() == self@.document,
                self@ == (SceneView { document: self@.document, ..before }),
                roomy(self@.document, entities@, 2 * (entities.len() - i)),
            decreases entities.len() - i,
        {
            let ghost current = self@.document;
            let entity = entities[i].copy();
            self.document.register_layer(&entity.common.layer);
            let ghost middle = self@.document;
            let handle = self.document.add_entity(entity);
            handles.push(handle);
            i = i + 1;
            proof {
                assert(layer_registered(current, middle, entities@[i - 1].common.layer@));
                assert(entity_added(current, self@.document, entities@[i - 1]));
                let done = entities@.take(i as int);
                let earlier = steps;
                steps = steps.push(self@.document);
                assert forall|j: int| 0 <= j < done.len() implies {
                    &&& entity_added(steps[j], steps[j + 1], #[trigger] done[j])
                    &&& handles@[j] == steps[j + 1].entities.last().common.handle
                } by {
                    if j < i - 1 {
                        assert(done[j] == entities@.take(i - 1)[j]);
                        assert(steps[j] == earlier[j] && steps[j + 1] == earlier[j + 1]);
                    }
                }
            }
        }
        proof {
            assert(entities@.take(i as int) =~= entities@);
        }
        self.bump_geometry();
        handles
    }
}

/// An entity of a batch was made ready. Where its image cannot be read, or the
/// engine refuses it, it goes in as it came.
pub open spec fn made_ready(
    before: DocumentView,
    after: DocumentView,
    scripted: Scripted,
    ready: EntityType,
) -> bool {
    exists|linked: EntityType|
        {
            &&& #[trigger] image_attempted(before, after, scripted, linked)
            &&& if scripted.derived is Refused {
                ready == linked
            } else {
                normalized(after, None, linked, ready, scripted.derived)
            }
        }
}

/// The image of a scripted entity was prepared, or left alone where its file
/// could not be read.
pub open spec fn image_attempted(
    before: DocumentView,
    after: DocumentView,
    scripted: Scripted,
    linked: EntityType,
) -> bool {
    if image_fault(scripted.entity, scripted.file) is Some {
        after == before && linked == scripted.entity
    } else {
        image_prepared(before, after, scripted.entity, linked, scripted.file)
    }
}

/// Each entity of a batch was made ready in what the ones before it left.
pub open spec fn ready_in_steps(
    steps: Seq<DocumentView>,
    batch: Seq<Scripted>,
    ready: Seq<EntityType>,
) -> bool {
    &&& steps.len() == batch.len() + 1
    &&& ready.len() == batch.len()
    &&& forall|i: int|
        0 <= i < batch.len() ==> made_ready(steps[i], steps[i + 1], #[trigger] batch[i], ready[i])
}

/// The entities of a batch were made ready one after the other.
pub open spec fn all_ready(
    before: DocumentView,
    after: DocumentView,
    batch: Seq<Scripted>,
    ready: Seq<EntityType>,
) -> bool {
    exists|steps: Seq<DocumentView>| #[trigger]
        ready_in_steps(steps, batch, ready) && steps[0] == before && steps.last() == after
}

/// The entities of a batch can be taken in.
pub open spec fn acceptable(doc: DocumentView, batch: Seq<Scripted>) -> bool {
    &&& doc.spare(4 * batch.len() as int)
    &&& forall|i: int|
        0 <= i < batch.len() ==> {
            &&& (#[trigger] batch[i]).answered()
            &&& id_left(doc, batch[i].entity)
            &&& batch[i].entity.common.handle.value + 4 * batch.len() + 1 <= u64::MAX
        }
}

/// What a script that adds a batch gets: all are made ready, then all are added,
/// and plugins are told once.
pub open spec fn batch_added<S, C>(
    before: StudioView<S, C>,
    after: StudioView<S, C>,
    tab: int,
    open: bool,
    batch: Seq<Scripted>,
    result: Seq<Handle>,
) -> bool {
    let doc = before.tabs[tab].scene.document;
    let changed = after.tabs[tab].scene.document;
    &&& after == announced(before, tab, open, changed)
    &&& exists|prepared: DocumentView, ready: Seq<EntityType>| #[trigger]
        all_ready(doc, prepared, batch, ready) && #[trigger] all_added(
            prepared,
            changed,
            ready,
            result,
        )
}

impl CadDocument {
    /// Makes an entity of a batch ready.
    fn make_ready(&mut self, scripted: Scripted) -> (result: EntityType)
        requires
            old(self)@.spare(2),
            scripted.answered(),
            id_left(old(self)@, scripted.entity),
        ensures
            made_ready(old(self)@, final(self)@, scripted, result),
            final(self)@.entities == old(self)@.entities,
            old(self)@.next_handle <= final(self)@.next_handle <= old(self)@.next_handle + 2,
            result.common == scripted.entity.common,
    {
        let ghost before = self@;
        let ghost given = scripted;
        let Scripted { entity, derived, file } = scripted;
        let mut entity = entity;
        let image = self.prepare_scripted_raster_image(&mut entity, &file);
        let ghost linked = entity;
        proof {
            if image is Ok {
                preparing_keeps_entities(before, self@, given.entity, linked, file);
            }
            assert(image_attempted(before, self@, given, linked));
        }
        let normal = self.normalize_scripted_entity(None, &mut entity, derived);
        proof {
            if !(given.derived is Refused) {
                normalizing_keeps_identity(self@, None, linked, entity, given.derived);
            }
        }
        entity
    }
}

impl<'a, S, C> HostSession<'a, S, C> {
    /// Adds a batch of entities and tells plugins once. The result are the
    /// handles, in the order of the entities.
    #[verifier::loop_isolation(false)]
    pub fn add_entities(&mut self, batch: Vec<Scripted>) -> (result: Vec<Handle>)
        requires
            old(self).valid(),
            acceptable(old(self).doc(), batch@),
        ensures
            batch_added(
                old(self).state(),
                final(self).state(),
                old(self).tab as int,
                old(self).doc_store is Some,
                batch@,
                result@,
            ),
            final(self).continues(*old(self)),
            final(self).valid(),
            *final(final(self).app) == *final(old(self).app),
    {
        let ghost before = self.state();
        let ghost doc = self.doc();
        let ghost tabs = self.app.tabs@;
        let ghost all = batch@;
        let ghost count = 4 * batch@.len() as int;
        let tab: usize = self.tab;
        let mut waiting = reversed(batch);
        let mut ready: Vec<EntityType> = Vec::new();
        let ghost steps = seq![doc];
        proof {
            assert(self.app.tabs@ =~= tabs.update(tab as int, self.app.tabs@[tab as int]));
        }
        while waiting.len() > 0
            invariant
                self.tab == tab,
                self.doc_store == old(self).doc_store,
                *final(self.app) == *final(old(self).app),
                ready.len() + waiting.len() == all.len(),
                forall|j: int| 0 <= j < waiting.len() ==> waiting@[j] == all[all.len() - 1 - j],
                self.app.tabs@ =~= tabs.update(tab as int, self.app.tabs@[tab as int]),
                self.state() == with_document(before, tab as int, self.doc()),
                ready_in_steps(steps, all.take(ready.len() as int), ready@),
                steps[0] == doc,
                steps.last() == self.doc(),
                self.doc().entities == doc.entities,
                doc.next_handle <= self.doc().next_handle <= doc.next_handle + 2 * ready.len(),
                forall|j: int| 0 <= j < ready.len() ==> ready@[j].common == all[j].entity.common,
            decreases waiting.len(),
        {
            if let Some(scripted) = waiting.pop() {
                let ghost current = self.doc();
                let ghost shown = ready@;
                let ghost index = ready.len() as int;
                proof {
                    assert(scripted == all[index]);
                    assert(all[index].answered());
                    assert(id_left(doc, all[index].entity));
                }
                let entity = self.app.tabs[tab].scene.document.make_ready(scripted);
                ready.push(entity);
                proof {
                    tab_changes(tabs, self.app.tabs@, tab as int);
                    assert(self.state().tabs =~= with_document(
                        before,
                        tab as int,
                        self.doc(),
                    ).tabs);
                    let done = all.take(ready.len() as int);
                    let earlier = steps;
                    steps = steps.push(self.doc());
                    assert forall|j: int| 0 <= j < done.len() implies made_ready(
                        steps[j],
                        steps[j + 1],
                        #[trigger] done[j],
                        ready@[j],
                    ) by {
                        if j < index {
                            assert(done[j] == all.take(index)[j]);
                            assert(steps[j] == earlier[j] && steps[j + 1] == earlier[j + 1]);
                            assert(ready@[j] == shown[j]);
                        }
                    }
                }
            }
        }
        let ghost prepared = self.doc();
        proof {
            assert(all.take(ready.len() as int) =~= all);
            assert(all_ready(doc, prepared, all, ready@));
            assert forall|i: int| 0 <= i < ready.len() implies (
            #[trigger] ready@[i]).common.handle.value + 2 * ready.len() + 1 <= u64::MAX by {
                assert(all[i].answered());
            }
        }
        let handles = self.app.tabs[tab].scene.add_entities(ready);
        proof {
            tab_changes(tabs, self.app.tabs@, tab as int);
            assert(self.state().tabs =~= with_scene(
                before,
                tab as int,
                redrawn(before.tabs[tab as int].scene, self.doc()),
            ).tabs);
        }
        self.publish_document_view();
        handles
    }
}

} // verus!
