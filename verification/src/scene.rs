//! The scene of one drawing: its database, the selection and the geometry epoch.

use crate::document::{entity_with, twins, CadDocument, DocumentView};
use crate::entities::{Color, EntityCommon, EntityType, Kind};
use crate::geometry::Handle;
use crate::records::{
    find_handle, find_key, identified, keyed, table_key, BlockRecord, Layer, LineWeight,
    Transparency,
};
use crate::search::{passing, place, seek, seek_back_finds, seek_finds};
use crate::text::{blank, is_blank};
use std::sync::Arc;
use vstd::prelude::*;
use vstd::string::*;

verus! {

/// A layer as it comes to be where an entity names one that is not there.
pub open spec fn plain_layer(layer: Layer, handle: Handle, name: Seq<char>) -> bool {
    &&& layer.handle == handle
    &&& layer.name@ == name
    &&& !layer.off && !layer.frozen && !layer.locked
    &&& layer.color == Color::Index(7)
    &&& layer.color_name is None
    &&& layer.book_name is None
    &&& layer.line_type@ == "Continuous"@
    &&& layer.line_weight == LineWeight::Standard
    &&& layer.is_plottable
    &&& layer.transparency == Transparency::Explicit(0)
    &&& layer.description@ == ""@
    &&& layer.record@ == Seq::<u8>::empty()
}

/// The layer that an entity names is in the table, under a handle of its own
/// where it had to be added. A blank name is left alone.
pub open spec fn layer_registered(before: DocumentView, after: DocumentView, name: Seq<char>) -> bool {
    if blank(name) || before.layer(name) is Some {
        after == before
    } else {
        &&& after.layers.len() == before.layers.len() + 1
        &&& plain_layer(after.layers.last(), Handle { value: before.next_handle }, name)
        &&& after == (DocumentView {
            next_handle: (before.next_handle + 1) as u64,
            layers: before.layers.push(after.layers.last()),
            ..before
        })
    }
}

/// The owner that an entity asks for: the one it names, or else the sheet or
/// model space.
pub open spec fn asked_owner(doc: DocumentView, entity: EntityType) -> Handle {
    if !entity.common.owner_handle.null() {
        entity.common.owner_handle
    } else if entity.common.on_paper && !doc.header.paper_space_block_handle.null() {
        doc.header.paper_space_block_handle
    } else {
        doc.header.model_space_block_handle
    }
}

/// The place of the block that an entity becomes a member of. Attributes belong
/// to their block reference, and the markers of a block to its record; any other
/// entity whose owner is no block goes to model space.
pub open spec fn home(doc: DocumentView, entity: EntityType) -> Option<int> {
    let owner = asked_owner(doc, entity);
    let kind = entity.data.kind();
    if kind is AttributeEntity || kind is Block || kind is BlockEnd {
        None
    } else if !owner.null() && seek(doc.block_records, 0, identified::<BlockRecord>(owner)) is Some {
        seek(doc.block_records, 0, identified::<BlockRecord>(owner))
    } else {
        seek(doc.block_records, 0, keyed::<BlockRecord>(table_key("*Model_Space"@)))
    }
}

/// The handle that an entity gets: its own, or else the next one.
pub open spec fn placed_handle(doc: DocumentView, entity: EntityType) -> Handle {
    if entity.common.handle.null() {
        Handle { value: doc.next_handle }
    } else {
        entity.common.handle
    }
}

/// An entity as it stands in the drawing.
pub open spec fn placed(doc: DocumentView, entity: EntityType) -> EntityType {
    EntityType {
        common: EntityCommon {
            handle: placed_handle(doc, entity),
            owner_handle: match home(doc, entity) {
                Some(i) => doc.block_records[i].handle,
                None => asked_owner(doc, entity),
            },
            ..entity.common
        },
        ..entity
    }
}

/// The entity is in the drawing, as a member of its block.
pub open spec fn entity_placed(before: DocumentView, after: DocumentView, entity: EntityType) -> bool {
    &&& after == (DocumentView {
        next_handle: if entity.common.handle.null() {
            (before.next_handle + 1) as u64
        } else if entity.common.handle.value >= before.next_handle {
            (entity.common.handle.value + 1) as u64
        } else {
            before.next_handle
        },
        block_records: after.block_records,
        entities: before.entities.push(placed(before, entity)),
        ..before
    })
    &&& match home(before, entity) {
        Some(i) => {
            &&& after.block_records == before.block_records.update(i, after.block_records[i])
            &&& after.block_records[i].handle == before.block_records[i].handle
            &&& after.block_records[i].name == before.block_records[i].name
            &&& after.block_records[i].entity_handles@
                == before.block_records[i].entity_handles@.push(placed_handle(before, entity))
        },
        None => after.block_records == before.block_records,
    }
}

impl CadDocument {
    /// Enters a layer that an entity names and the table lacks.
    pub fn register_layer(&mut self, name: &str)
        requires
            old(self)@.spare(1),
        ensures
            layer_registered(old(self)@, final(self)@, name@),
    {
        if is_blank(name) || self.get_layer(name).is_some() {
            return;
        }
        let handle = self.allocate_handle();
        let layer = Layer {
            handle,
            name: name.to_owned(),
            off: false,
            frozen: false,
            locked: false,
            color: Color::Index(7),
            color_name: None,
            book_name: None,
            line_type: "Continuous".to_owned(),
            line_weight: LineWeight::Standard,
            is_plottable: true,
            transparency: Transparency::Explicit(0),
            description: "".to_owned(),
            record: Arc::new(Vec::new()),
        };
        self.layers.push(layer);
        proof {
            assert(self.layers@ =~= old(self).layers@.push(self.layers@.last()));
        }
    }

    /// The owner that an entity asks for.
    fn owner_for(&self, entity: &EntityType) -> (result: Handle)
        ensures
            result == asked_owner(self@, *entity),
    {
        if !entity.common.owner_handle.is_null() {
            entity.common.owner_handle
        } else if entity.common.on_paper && !self.header.paper_space_block_handle.is_null() {
            self.header.paper_space_block_handle
        } else {
            self.header.model_space_block_handle
        }
    }

    /// The place of the block that an entity becomes a member of.
    fn find_home(&self, entity: &EntityType) -> (result: Option<usize>)
        ensures
            place(result) == home(self@, *entity),
            result matches Some(i) ==> i < self.block_records.len(),
    {
        match entity.data.kind_of() {
            Kind::AttributeEntity | Kind::Block | Kind::BlockEnd => {
                return None;
            },
            _ => {},
        }
        let owner = self.owner_for(entity);
        if !owner.is_null() {
            if let Some(i) = find_handle(&self.block_records, owner) {
                return Some(i);
            }
        }
        find_key(&self.block_records, "*Model_Space")
    }

    /// Puts an entity into the drawing and makes it a member of its block.
    pub fn add_entity(&mut self, entity: EntityType) -> (result: Handle)
        requires
            old(self)@.spare(1),
            entity.common.handle.value < u64::MAX,
        ensures
            result == placed_handle(old(self)@, entity),
            entity_placed(old(self)@, final(self)@, entity),
    {
        let ghost before = self@;
        let ghost asked = entity;
        let mut entity = entity;
        let found = self.find_home(&entity);
        entity.common.owner_handle = self.owner_for(&entity);
        if entity.common.handle.is_null() {
            entity.common.handle = self.allocate_handle();
        } else if entity.common.handle.value >= self.next_handle {
            self.next_handle = entity.common.handle.value + 1;
        }
        let handle = entity.common.handle;
        if let Some(i) = found {
            let mut handles = twins(&self.block_records[i].entity_handles);
            handles.push(handle);
            let record = BlockRecord {
                handle: self.block_records[i].handle,
                name: self.block_records[i].name.clone(),
                entity_handles: Arc::new(handles),
            };
            entity.common.owner_handle = record.handle;
            self.block_records.set(i, record);
        }
        proof {
            seek_finds(before.block_records, 0, identified::<BlockRecord>(asked_owner(before, asked)));
        }
        self.entities.push(entity);
        handle
    }

    /// Whether the layer of an entity is locked.
    pub fn is_layer_locked(&self, handle: Handle) -> (result: bool)
        ensures
            result == locked(self@, handle),
    {
        match self.get_entity(handle) {
            Some(entity) => match self.get_layer(&entity.common.layer) {
                Some(layer) => layer.locked,
                None => false,
            },
            None => false,
        }
    }
}

/// The entity with a handle is on a locked layer.
pub open spec fn locked(doc: DocumentView, handle: Handle) -> bool {
    match doc.entity(handle) {
        Some(entity) => match doc.layer(entity.common.layer@) {
            Some(layer) => layer.locked,
            None => false,
        },
        None => false,
    }
}

/// The scene of a drawing.
pub struct Scene {
    pub document: CadDocument,
    /// The selected entities, in the order in which they were selected.
    pub selection: Vec<Handle>,
    /// Counts the changes to the geometry.
    pub geometry_epoch: u64,
}

/// What a scene holds.
#[verifier::ext_equal]
pub struct SceneView {
    pub document: DocumentView,
    pub selection: Seq<Handle>,
    pub geometry_epoch: u64,
}

impl View for Scene {
    type V = SceneView;

    open spec fn view(&self) -> SceneView {
        SceneView {
            document: self.document@,
            selection: self.selection@,
            geometry_epoch: self.geometry_epoch,
        }
    }
}

/// The epoch after a change. The counter starts over when it runs out.
pub open spec fn next_epoch(epoch: u64) -> u64 {
    if epoch == u64::MAX {
        0
    } else {
        (epoch + 1) as u64
    }
}

/// The scene of a drawing that became another.
pub open spec fn redrawn(scene: SceneView, document: DocumentView) -> SceneView {
    SceneView { document, geometry_epoch: next_epoch(scene.geometry_epoch), ..scene }
}

/// An entity was added: its layer is registered, then it is placed.
pub open spec fn entity_added(before: DocumentView, after: DocumentView, entity: EntityType) -> bool {
    exists|middle: DocumentView| #[trigger]
        layer_registered(before, middle, entity.common.layer@) && entity_placed(
            middle,
            after,
            entity,
        )
}

/// An entity took the place of the one with its handle: its layer is registered
/// and nothing else changes.
pub open spec fn entity_replaced(before: DocumentView, after: DocumentView, entity: EntityType) -> bool {
    exists|middle: DocumentView| #[trigger]
        layer_registered(before, middle, entity.common.layer@) && (
        before.entity_place(entity.common.handle) matches Some(i) && after == (DocumentView {
            entities: before.entities.update(i, entity),
            ..middle
        }))
}

/// The entity is not among those to erase, or its layer is locked.
pub open spec fn kept(doc: DocumentView, handles: Seq<Handle>) -> spec_fn(EntityType) -> bool {
    |entity: EntityType|
        !(handles.contains(entity.common.handle) && !locked(doc, entity.common.handle))
}

/// The handle still leads to an entity.
pub open spec fn still_there(doc: DocumentView, handles: Seq<Handle>) -> spec_fn(Handle) -> bool {
    |handle: Handle| !(handles.contains(handle) && !locked(doc, handle))
}

/// The scene without the given entities. Those on locked layers stay.
pub open spec fn erased(scene: SceneView, handles: Seq<Handle>) -> SceneView {
    SceneView {
        document: DocumentView {
            entities: passing(scene.document.entities, kept(scene.document, handles)),
            ..scene.document
        },
        selection: passing(scene.selection, still_there(scene.document, handles)),
        geometry_epoch: next_epoch(scene.geometry_epoch),
    }
}

fn holds(handles: &Vec<Handle>, handle: Handle) -> (result: bool)
    ensures
        result == handles@.contains(handle),
{
    let mut i: usize = 0;
    while i < handles.len()
        invariant
            i <= handles.len(),
            forall|j: int| 0 <= j < i ==> handles@[j] != handle,
        decreases handles.len() - i,
    {
        if handles[i] == handle {
            return true;
        }
        i = i + 1;
    }
    false
}

impl Scene {
    /// Marks the geometry as changed.
    pub fn bump_geometry(&mut self)
        ensures
            final(self)@ == (SceneView {
                geometry_epoch: next_epoch(old(self)@.geometry_epoch),
                ..old(self)@
            }),
    {
        self.geometry_epoch = if self.geometry_epoch == u64::MAX {
            0
        } else {
            self.geometry_epoch + 1
        };
    }

    /// Adds an entity. A layer that the drawing lacks is entered first, under a
    /// handle of its own.
    pub fn add_entity(&mut self, entity: EntityType) -> (result: Handle)
        requires
            old(self)@.document.spare(2),
            entity.common.handle.value < u64::MAX,
        ensures
            entity_added(old(self)@.document, final(self)@.document, entity),
            final(self)@ == redrawn(old(self)@, final(self)@.document),
            result == final(self)@.document.entities.last().common.handle,
    {
        let ghost before = self.document@;
        self.document.register_layer(&entity.common.layer);
        let ghost middle = self.document@;
        let handle = self.document.add_entity(entity);
        proof {
            assert(layer_registered(before, middle, entity.common.layer@));
        }
        self.bump_geometry();
        handle
    }

    /// Puts an entity in the place of the one with its handle, if there is one.
    pub fn update_entity(&mut self, entity: EntityType) -> (result: bool)
        requires
            old(self)@.document.spare(1),
        ensures
            result == (old(self)@.document.entity(entity.common.handle) is Some),
            result ==> entity_replaced(old(self)@.document, final(self)@.document, entity),
            result ==> final(self)@ == redrawn(old(self)@, final(self)@.document),
            !result ==> final(self)@ == old(self)@,
    {
        let ghost before = self.document@;
        match self.document.find_entity(entity.common.handle) {
            None => false,
            Some(i) => {
                self.document.register_layer(&entity.common.layer);
                let ghost middle = self.document@;
                self.document.entities.set(i, entity);
                proof {
                    assert(layer_registered(before, middle, entity.common.layer@));
                    assert(self.document@ =~= (DocumentView {
                        entities: before.entities.update(i as int, entity),
                        ..middle
                    }));
                }
                self.bump_geometry();
                true
            },
        }
    }

    /// Erases entities and takes them out of the selection. Those on locked
    /// layers stay.
    #[verifier::loop_isolation(false)]
    pub fn erase_entities(&mut self, handles: &Vec<Handle>)
        ensures
            final(self)@ == erased(old(self)@, handles@),
    {
        let ghost before = self@.document;
        let mut entities: Vec<EntityType> = Vec::new();
        let mut i: usize = 0;
        while i < self.document.entities.len()
            invariant
                i <= self.document.entities.len(),
                self@ == old(self)@,
                entities@ == passing(before.entities.take(i as int), kept(before, handles@)),
            decreases self.document.entities.len() - i,
        {
            let entity = &self.document.entities[i];
            let handle = entity.common.handle;
            let stays = !(holds(handles, handle) && !self.document.is_layer_locked(handle));
            proof {
                let next = before.entities.take(i + 1);
                assert(next.drop_last() =~= before.entities.take(i as int));
            }
            if stays {
                entities.push(entity.copy());
            }
            i = i + 1;
        }
        proof {
            assert(before.entities.take(i as int) =~= before.entities);
        }
        let mut selection: Vec<Handle> = Vec::new();
        let mut i: usize = 0;
        while i < self.selection.len()
            invariant
                i <= self.selection.len(),
                self@ == old(self)@,
                selection@ == passing(
                    self.selection@.take(i as int),
                    still_there(before, handles@),
                ),
            decreases self.selection.len() - i,
        {
            let handle = self.selection[i];
            proof {
                let next = self.selection@.take(i + 1);
                assert(next.drop_last() =~= self.selection@.take(i as int));
            }
            if !(holds(handles, handle) && !self.document.is_layer_locked(handle)) {
                selection.push(handle);
            }
            i = i + 1;
        }
        proof {
            assert(self.selection@.take(i as int) =~= self.selection@);
        }
        self.document.entities = entities;
        self.selection = selection;
        self.bump_geometry();
    }
}

/// An entity that was added reads back under its handle, as it was given but for
/// the handle and the owner that it got.
pub proof fn added_entity_reads_back(before: DocumentView, after: DocumentView, entity: EntityType)
    requires
        entity_added(before, after, entity),
    ensures
        after.entity(after.entities.last().common.handle) == Some(after.entities.last()),
        after.entities.len() == before.entities.len() + 1,
        after.entities.last() == (EntityType {
            common: EntityCommon {
                handle: after.entities.last().common.handle,
                owner_handle: after.entities.last().common.owner_handle,
                ..entity.common
            },
            ..entity
        }),
        !entity.common.handle.null() ==> after.entities.last().common.handle
            == entity.common.handle,
{
}

/// The layer that an added or a replaced entity names is in the table, under a
/// handle that is not null.
pub proof fn named_layer_is_registered(before: DocumentView, after: DocumentView, name: Seq<char>)
    requires
        layer_registered(before, after, name),
        !blank(name),
        before.next_handle > 0,
    ensures
        after.layer(name) is Some,
        before.layer(name) is None ==> (after.layer(name) matches Some(layer)
            && !layer.handle.null() && layer.name@ == name),
        before.layer(name) is Some ==> after == before,
{
    if before.layer(name) is None {
        let test = keyed::<Layer>(table_key(name));
        seek_finds(before.layers, 0, test);
        seek_finds(after.layers, 0, test);
        let last = after.layers.len() - 1;
        assert(test(after.layers[last]));
        let found = seek(after.layers, 0, test)->Some_0;
        if found < last {
            assert(after.layers[found] == before.layers[found]);
        }
    }
}

/// A handle that an entity is given belonged to no entity before, and the
/// drawing is ready to give out the next.
pub proof fn given_handles_are_fresh(before: DocumentView, after: DocumentView, entity: EntityType)
    requires
        entity_added(before, after, entity),
        before.ordered(),
        before.spare(2),
        entity.common.handle.value < u64::MAX,
    ensures
        after.ordered(),
        entity.common.handle.null() ==> before.entity(after.entities.last().common.handle) is None,
{
    let middle = choose|middle: DocumentView| #[trigger]
        layer_registered(before, middle, entity.common.layer@) && entity_placed(
            middle,
            after,
            entity,
        );
    assert(middle.entities == before.entities);
    assert(before.next_handle <= middle.next_handle);
    assert forall|i: int| 0 <= i < after.entities.len() implies 0 < (
    #[trigger] after.entities[i]).common.handle.value < after.next_handle by {
        if i < before.entities.len() {
            assert(after.entities[i] == before.entities[i]);
        }
    }
    let handle = after.entities.last().common.handle;
    seek_back_finds(before.entities, before.entities.len() as int, entity_with(handle));
    if let Some(i) = before.entity_place(handle) {
        assert(entity_with(handle)(before.entities[i]));
    }
}

/// Replacing an entity keeps every handle, and the entity reads back.
pub proof fn replaced_entity_reads_back(
    before: DocumentView,
    after: DocumentView,
    entity: EntityType,
)
    requires
        entity_replaced(before, after, entity),
    ensures
        after.entity(entity.common.handle) == Some(entity),
        after.entities.len() == before.entities.len(),
        forall|i: int|
            0 <= i < after.entities.len() ==> (#[trigger] after.entities[i]).common.handle
                == before.entities[i].common.handle,
{
    let handle = entity.common.handle;
    seek_back_finds(before.entities, before.entities.len() as int, entity_with(handle));
    seek_back_finds(after.entities, after.entities.len() as int, entity_with(handle));
    let place = before.entity_place(handle)->Some_0;
    assert(entity_with(handle)(after.entities[place]));
    if let Some(i) = after.entity_place(handle) {
        if i != place {
            assert(entity_with(handle)(after.entities[i]));
            assert(after.entities[i] == before.entities[i]);
        }
    }
}

} // verus!
