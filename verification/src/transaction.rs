//! Replacing several entities at once, or none of them.

use crate::agree::{lists_agree, Agree};
use crate::attributes::{
    attribute_slot, attribute_with, find_attribute, model_entity, owner_reattributed, reattributed,
};
use crate::binding::{
    attribute_binding, bind_canvas_entity_references, binding_fault, binds, mline_binding,
    shape_binding, tolerance_binding,
};
use crate::document::{entity_with, CadDocument, DocumentView};
use crate::entities::{AttributeEntity, EntityData, EntityType, MLine, Shape, Tolerance};
use crate::geometry::Handle;
use crate::mutation_rules::{mutation_fault, validate_entity_mutation};
use crate::normalize::{normalized, normalizing_keeps_identity, Derived};
use crate::reference_rules::{get_owning_insert, owning_insert};
use crate::scene::{entity_replaced, locked, next_epoch, Scene, SceneView};
use crate::scripting::{as_record, entity_applied, replaces, Scripted};
use crate::search::{reversed, seek, seek_back_finds, seek_finds};
use crate::session::{published, HostSession};
use crate::studio::{tab_changes, SnapshotView, StudioView, TabView};
use crate::text::{
    blank, check, earliest, fault, first, is_blank, join, join3, unless, Fault,
};
use std::collections::HashSet;
use std::sync::Arc;
use vstd::prelude::*;
use vstd::string::*;

verus! {

/// An entity with its names bound.
pub open spec fn bound(doc: DocumentView, entity: EntityType) -> EntityType {
    let data = match entity.data {
        EntityData::Tolerance(value) => EntityData::Tolerance(
            Arc::new(
                Tolerance { dimension_style_handle: tolerance_binding(doc, *value), ..*value },
            ),
        ),
        EntityData::MLine(value) => EntityData::MLine(
            Arc::new(MLine { style_handle: mline_binding(doc, *value), ..*value }),
        ),
        EntityData::Shape(value) => EntityData::Shape(
            Arc::new(Shape { style_handle: shape_binding(doc, *value), ..*value }),
        ),
        EntityData::AttributeEntity(value) => EntityData::AttributeEntity(
            Arc::new(
                AttributeEntity {
                    attdef_handle: match attribute_binding(
                        doc,
                        entity.common.owner_handle,
                        *value,
                    ) {
                        Ok(handle) => handle,
                        Err(_) => value.attdef_handle,
                    },
                    ..*value
                },
            ),
        ),
        other => other,
    };
    EntityType { data, ..entity }
}

/// There is one way to bind an entity.
pub proof fn binding_is_unique(doc: DocumentView, entity: EntityType, after: EntityType)
    requires
        binds(doc, entity, after),
    ensures
        bound(doc, entity) == after,
{
}

/// The message for an entity of a transaction.
pub open spec fn says(handle: Handle, what: Seq<char>) -> Seq<char> {
    "entity "@ + handle.shown() + what
}

fn say(handle: Handle, what: &str) -> (result: String)
    ensures
        result@ == says(handle, what@),
{
    join3("entity ", &handle.show(), what)
}

/// A complaint about an entity, with its handle in front.
pub open spec fn within(handle: Handle, complaint: Fault) -> Fault {
    match complaint {
        Some(message) => Some(says(handle, ": "@) + message),
        None => None,
    }
}

fn place_within(handle: Handle, result: Result<(), String>) -> (placed: Result<(), String>)
    ensures
        fault(placed) == within(handle, fault(result)),
{
    match result {
        Ok(()) => Ok(()),
        Err(message) => Err(join(&say(handle, ": "), &message)),
    }
}

/// Why the geometry engine refuses an entity.
pub open spec fn refusal(derived: Derived) -> Fault {
    match derived {
        Derived::Refused(message) => Some(message@),
        _ => None,
    }
}

/// The entity whose layer decides whether an edit may go on: for an attribute
/// that is the block reference that owns it.
pub open spec fn lock_holder(entity: EntityType) -> Handle {
    if entity.data is AttributeEntity {
        entity.common.owner_handle
    } else {
        entity.common.handle
    }
}

/// What an edit is held against: the stored entity, with the handles that binding
/// filled in where the script left them as they were. A handle that the host
/// looked up itself is no edit.
pub open spec fn settled(existing: EntityType, given: EntityType, bound: EntityType) -> EntityType {
    match (existing.data, given.data, bound.data) {
        (
            EntityData::Tolerance(old_value),
            EntityData::Tolerance(value),
            EntityData::Tolerance(new),
        ) if old_value.dimension_style_handle == value.dimension_style_handle => EntityType {
            data: EntityData::Tolerance(
                Arc::new(
                    Tolerance {
                        dimension_style_handle: new.dimension_style_handle,
                        ..*old_value
                    },
                ),
            ),
            ..existing
        },
        (
            EntityData::Shape(old_value),
            EntityData::Shape(value),
            EntityData::Shape(new),
        ) if old_value.style_handle == value.style_handle => EntityType {
            data: EntityData::Shape(
                Arc::new(Shape { style_handle: new.style_handle, ..*old_value }),
            ),
            ..existing
        },
        (
            EntityData::MLine(old_value),
            EntityData::MLine(value),
            EntityData::MLine(new),
        ) if old_value.style_handle == value.style_handle => EntityType {
            data: EntityData::MLine(
                Arc::new(MLine { style_handle: new.style_handle, ..*old_value }),
            ),
            ..existing
        },
        (
            EntityData::AttributeEntity(old_value),
            EntityData::AttributeEntity(value),
            EntityData::AttributeEntity(new),
        ) if old_value.attdef_handle == value.attdef_handle => EntityType {
            data: EntityData::AttributeEntity(
                Arc::new(AttributeEntity { attdef_handle: new.attdef_handle, ..*old_value }),
            ),
            ..existing
        },
        _ => existing,
    }
}

/// Takes over into a stored entity the handles that binding filled in.
fn settle(existing: &EntityType, given: &EntityType, bound: &EntityType) -> (result: EntityType)
    ensures
        result == settled(*existing, *given, *bound),
{
    let mut result = existing.copy();
    match (&existing.data, &given.data, &bound.data) {
        (
            EntityData::Tolerance(old_value),
            EntityData::Tolerance(value),
            EntityData::Tolerance(new),
        ) => {
            if old_value.dimension_style_handle == value.dimension_style_handle {
                result.data = EntityData::Tolerance(
                    Arc::new(old_value.bound_to(new.dimension_style_handle)),
                );
            }
        },
        (EntityData::Shape(old_value), EntityData::Shape(value), EntityData::Shape(new)) => {
            if old_value.style_handle == value.style_handle {
                result.data = EntityData::Shape(
                    Arc::new(old_value.bound_to(new.style_handle)),
                );
            }
        },
        (EntityData::MLine(old_value), EntityData::MLine(value), EntityData::MLine(new)) => {
            if old_value.style_handle == value.style_handle {
                result.data = EntityData::MLine(Arc::new(old_value.bound_to(new.style_handle)));
            }
        },
        (
            EntityData::AttributeEntity(old_value),
            EntityData::AttributeEntity(value),
            EntityData::AttributeEntity(new),
        ) => {
            if old_value.attdef_handle == value.attdef_handle {
                result.data = EntityData::AttributeEntity(
                    Arc::new(old_value.bound_to(new.attdef_handle)),
                );
            }
        },
        _ => {},
    }
    result
}

/// Why an entity cannot be replaced: there is none with its handle, its kind or
/// its owner would change, it does not fit the drawing, its edit breaks a rule,
/// the engine refuses it, or its layer is locked.
pub open spec fn member_fault(doc: DocumentView, scripted: Scripted) -> Fault {
    let entity = scripted.entity;
    let handle = entity.common.handle;
    match model_entity(doc, handle) {
        None => Some(says(handle, " does not exist"@)),
        Some(existing) => first(
            unless(existing.data.kind() == entity.data.kind(), says(handle, " changes kind"@)),
            first(
                unless(
                    existing.common.owner_handle == entity.common.owner_handle,
                    says(handle, " changes owner"@),
                ),
                first(
                    within(handle, binding_fault(doc, entity, bound(doc, entity))),
                    first(
                        within(
                            handle,
                            mutation_fault(
                                settled(existing, entity, bound(doc, entity)),
                                bound(doc, entity),
                            ),
                        ),
                        first(
                            within(handle, refusal(scripted.derived)),
                            unless(
                                !locked(doc, lock_holder(entity)),
                                says(handle, " is on a locked layer"@),
                            ),
                        ),
                    ),
                ),
            ),
        ),
    }
}

/// An entity with the handle comes earlier in the batch.
pub open spec fn comes_earlier(batch: Seq<Scripted>, index: int) -> bool {
    exists|j: int|
        0 <= j < index && (#[trigger] batch[j]).entity.common.handle
            == batch[index].entity.common.handle
}

/// For each entity of a batch, that it comes once and can be replaced.
pub open spec fn member_checks(doc: DocumentView, batch: Seq<Scripted>) -> spec_fn(int) -> Fault {
    |i: int|
        first(
            unless(
                !batch[i].entity.common.handle.null() && !comes_earlier(batch, i),
                "null or duplicate entity handle: "@ + batch[i].entity.common.handle.shown(),
            ),
            member_fault(doc, batch[i]),
        )
}

/// Why a batch cannot be replaced.
pub open spec fn transaction_fault(
    doc: DocumentView,
    label: Seq<char>,
    batch: Seq<Scripted>,
) -> Fault {
    first(
        unless(!blank(label), "transaction label is empty"@),
        earliest(0, batch.len() as int, member_checks(doc, batch)),
    )
}

/// The entity that a batch puts in the place of an existing one.
pub open spec fn replacement(doc: DocumentView, scripted: Scripted, ready: EntityType) -> bool {
    &&& binds(doc, scripted.entity, bound(doc, scripted.entity))
    &&& model_entity(doc, scripted.entity.common.handle) matches Some(existing) && normalized(
        doc,
        Some(existing),
        bound(doc, scripted.entity),
        ready,
        scripted.derived,
    )
}

/// Each entity of a batch has its replacement.
pub open spec fn replacements(
    doc: DocumentView,
    batch: Seq<Scripted>,
    ready: Seq<EntityType>,
) -> bool {
    ready.len() == batch.len() && forall|i: int|
        0 <= i < batch.len() ==> replacement(doc, #[trigger] batch[i], ready[i])
}

/// Each entity took its place in what the ones before it left.
pub open spec fn applied_in_steps(steps: Seq<DocumentView>, entities: Seq<EntityType>) -> bool {
    &&& steps.len() == entities.len() + 1
    &&& forall|i: int|
        0 <= i < entities.len() ==> entity_applied(steps[i], steps[i + 1], #[trigger] entities[i])
}

/// The epoch after a number of changes.
pub open spec fn epoch_after(epoch: u64, changes: nat) -> u64
    decreases changes,
{
    if changes == 0 {
        epoch
    } else {
        next_epoch(epoch_after(epoch, (changes - 1) as nat))
    }
}

/// What a transaction comes to: one step that can be undone, every replacement
/// in its place, and plugins are told once.
pub open spec fn transacted<S, C>(
    before: StudioView<S, C>,
    after: StudioView<S, C>,
    tab: int,
    open: bool,
    label: Seq<char>,
    batch: Seq<Scripted>,
) -> bool {
    let old_tab = before.tabs[tab];
    let doc = old_tab.scene.document;
    let scene = after.tabs[tab].scene;
    &&& exists|ready: Seq<EntityType>| #[trigger]
        replacements(doc, batch, ready) && all_applied(old_tab.scene, scene, ready)
    &&& after == published(
        before.with_tab(
            tab,
            TabView {
                dirty: true,
                undo: old_tab.undo.push(SnapshotView { label, document: doc }),
                redo: Seq::empty(),
                scene,
                ..old_tab
            },
        ),
        tab,
        open,
    )
}

/// The handles of the attributes of a block reference.
pub open spec fn attribute_handles(entity: EntityType) -> Seq<Handle> {
    match entity.data {
        EntityData::Insert(insert) => Seq::new(
            insert.attributes@.len(),
            |i: int| insert.attributes@[i].common.handle,
        ),
        _ => Seq::empty(),
    }
}

/// Two drawings hold the same entities up to what the entities look like.
pub open spec fn same_shape(a: DocumentView, b: DocumentView) -> bool {
    &&& a.entities.len() == b.entities.len()
    &&& forall|i: int|
        #![trigger a.entities[i]]
        #![trigger b.entities[i]]
        0 <= i < a.entities.len() ==> {
            &&& a.entities[i].common.handle == b.entities[i].common.handle
            &&& a.entities[i].data.kind() == b.entities[i].data.kind()
            &&& attribute_handles(a.entities[i]) == attribute_handles(b.entities[i])
        }
}

/// Drawings of the same shape hold an entity in the same place.
pub proof fn shape_keeps_places(a: DocumentView, b: DocumentView, handle: Handle)
    requires
        same_shape(a, b),
    ensures
        a.entity_place(handle) == b.entity_place(handle),
{
    let test = entity_with(handle);
    seek_back_finds(a.entities, a.entities.len() as int, test);
    seek_back_finds(b.entities, b.entities.len() as int, test);
    if let Some(i) = a.entity_place(handle) {
        assert(test(b.entities[i]));
    }
    if let Some(i) = b.entity_place(handle) {
        assert(test(a.entities[i]));
    }
}

/// Drawings of the same shape have something to replace for the same attributes.
proof fn shape_keeps_slots(a: DocumentView, b: DocumentView, owner: Handle, handle: Handle)
    requires
        same_shape(a, b),
        attribute_slot(a, owner, handle) is Some,
    ensures
        attribute_slot(b, owner, handle) is Some,
{
    shape_keeps_places(a, b, owner);
    let i = a.entity_place(owner)->Some_0;
    seek_back_finds(a.entities, a.entities.len() as int, entity_with(owner));
    let left = owning_insert(a, owner)->Some_0;
    assert(a.entities[i].data.kind() is Insert);
    assert(b.entities[i].data.kind() is Insert);
    let right = owning_insert(b, owner)->Some_0;
    let test = attribute_with(handle);
    seek_finds(left.attributes@, 0, test);
    seek_finds(right.attributes@, 0, test);
    let k = seek(left.attributes@, 0, test)->Some_0;
    assert(attribute_handles(a.entities[i])[k] == handle);
    assert(attribute_handles(b.entities[i])[k] == handle);
    assert(attribute_handles(b.entities[i]).len() == right.attributes@.len());
    if let EntityData::Insert(insert) = b.entities[i].data {
        assert(attribute_handles(b.entities[i])[k] == insert.attributes@[k].common.handle);
    }
    assert(test(right.attributes@[k]));
}

/// A replacement of the same kind, with the same attributes where it is a block
/// reference, keeps the shape of a drawing.
pub(crate) proof fn replacing_keeps_shape(before: DocumentView, after: DocumentView, entity: EntityType)
    requires
        entity_replaced(before, after, entity),
        before.entity(entity.common.handle) matches Some(existing) && existing.data.kind()
            == entity.data.kind() && attribute_handles(existing) == attribute_handles(entity),
    ensures
        same_shape(before, after),
{
    seek_back_finds(
        before.entities,
        before.entities.len() as int,
        entity_with(entity.common.handle),
    );
}

/// Replacing an attribute keeps the shape of a drawing.
pub(crate) proof fn attribute_keeps_shape(before: DocumentView, after: DocumentView, entity: EntityType)
    requires
        entity.data is AttributeEntity,
        entity_applied(before, after, entity),
    ensures
        same_shape(before, after),
{
    let attribute = as_record(entity);
    let owner = entity.common.owner_handle;
    let handle = entity.common.handle;
    let insert = owning_insert(before, owner)->Some_0;
    let slot = attribute_slot(before, owner, handle)->Some_0;
    let attributes = insert.attributes@.update(slot, attribute);
    assert(owner_reattributed(before, after, owner, attributes));
    let changed = choose|changed: EntityType| #[trigger]
        entity_replaced(before, after, changed) && (before.entity(owner) matches Some(found)
            && reattributed(found, changed, attributes));
    seek_finds(insert.attributes@, 0, attribute_with(handle));
    seek_back_finds(before.entities, before.entities.len() as int, entity_with(owner));
    let found = before.entity(owner)->Some_0;
    assert(attribute_handles(changed) =~= attribute_handles(found));
    replacing_keeps_shape(before, after, changed);
}

/// What a replacement has in common with what it replaces.
proof fn replacement_keeps_identity(doc: DocumentView, scripted: Scripted, ready: EntityType)
    requires
        replacement(doc, scripted, ready),
        scripted.answered(),
        member_fault(doc, scripted) is None,
    ensures
        ready.common == scripted.entity.common,
        ready.data.kind() == scripted.entity.data.kind(),
        !(ready.data is AttributeEntity) ==> (doc.entity(ready.common.handle) matches Some(existing)
            && existing.data.kind() == ready.data.kind() && attribute_handles(existing)
            == attribute_handles(ready)),
{
    let handle = scripted.entity.common.handle;
    let existing = model_entity(doc, handle)->Some_0;
    let middle = bound(doc, scripted.entity);
    assert(middle.data.kind() == scripted.entity.data.kind());
    normalizing_keeps_identity(doc, Some(existing), middle, ready, scripted.derived);
    if !(ready.data is AttributeEntity) {
        seek_back_finds(doc.entities, doc.entities.len() as int, entity_with(handle));
        if ready.data is Insert {
            assert(mutation_fault(existing, middle) is None);
            if let EntityData::Insert(old_insert) = existing.data {
                if let EntityData::Insert(new_insert) = middle.data {
                    assert(lists_agree(old_insert.attributes@, new_insert.attributes@));
                    assert(attribute_handles(existing) =~= attribute_handles(ready)) by {
                        assert forall|k: int| 0 <= k < old_insert.attributes@.len() implies
                            old_insert.attributes@[k].common.handle
                            == new_insert.attributes@[k].common.handle by {
                            assert(old_insert.attributes@[k].agrees(new_insert.attributes@[k]));
                        }
                    }
                }
            }
        }
    }
}

/// Checks an entity of a batch and makes it ready to take its place.
fn prepare_member(doc: &CadDocument, scripted: Scripted) -> (result: Result<
    EntityType,
    String,
>)
    requires
        scripted.answered(),
    ensures
        fault(result) == member_fault(doc@, scripted),
        result matches Ok(ready) ==> replacement(doc@, scripted, ready),
{
    let ghost given = scripted;
    let Scripted { entity, derived, file: _ } = scripted;
    let mut entity = entity;
    let handle = entity.common.handle;
    let existing = match doc.host_model_entity(handle) {
        Some(existing) => existing,
        None => {
            return Err(say(handle, " does not exist"));
        },
    };
    check(
        existing.data.kind_of() == entity.data.kind_of(),
        &say(handle, " changes kind"),
    )?;
    check(
        existing.common.owner_handle == entity.common.owner_handle,
        &say(handle, " changes owner"),
    )?;
    let asked = entity.copy();
    let binding = bind_canvas_entity_references(doc, &mut entity);
    proof {
        binding_is_unique(doc@, given.entity, entity);
    }
    place_within(handle, binding)?;
    let start = settle(&existing, &asked, &entity);
    place_within(handle, validate_entity_mutation(&start, &entity))?;
    let owner = entity.common.owner_handle;
    let attribute = match &entity.data {
        EntityData::AttributeEntity(_) => true,
        _ => false,
    };
    let normal = doc.normalize_scripted_entity(Some(&existing), &mut entity, derived);
    place_within(handle, normal)?;
    let holder = if attribute {
        owner
    } else {
        handle
    };
    check(!doc.is_layer_locked(holder), &say(handle, " is on a locked layer"))?;
    Ok(entity)
}

/// The place of every attribute that a batch edits is in the block reference
/// that the attribute names as its owner.
pub open spec fn attributes_at_home(doc: DocumentView, batch: Seq<Scripted>) -> bool {
    forall|i: int|
        0 <= i < batch.len() && (#[trigger] batch[i]).entity.data is AttributeEntity
            ==> attribute_slot(
            doc,
            batch[i].entity.common.owner_handle,
            batch[i].entity.common.handle,
        ) is Some
}

/// Whether the place of every attribute that a batch edits is in the block
/// reference that the attribute names as its owner.
fn are_attributes_at_home(doc: &CadDocument, batch: &Vec<Scripted>) -> (result: bool)
    ensures
        result == attributes_at_home(doc@, batch@),
{
    let mut i: usize = 0;
    while i < batch.len()
        invariant
            i <= batch.len(),
            attributes_at_home(doc@, batch@.take(i as int)),
        decreases batch.len() - i,
    {
        if let EntityData::AttributeEntity(_) = &batch[i].entity.data {
            let common = &batch[i].entity.common;
            let home = match get_owning_insert(doc, common.owner_handle) {
                Some(insert) => find_attribute(&insert.attributes, common.handle).is_some(),
                None => false,
            };
            if !home {
                assert(batch@[i as int].entity.data is AttributeEntity);
                return false;
            }
        }
        i = i + 1;
        proof {
            assert forall|j: int|
                0 <= j < i && (#[trigger] batch@.take(i as int)[j]).entity.data
                    is AttributeEntity implies attribute_slot(
                doc@,
                batch@.take(i as int)[j].entity.common.owner_handle,
                batch@.take(i as int)[j].entity.common.handle,
            ) is Some by {
                if j < i - 1 {
                    assert(batch@.take(i as int)[j] == batch@.take(i - 1)[j]);
                }
            }
        }
    }
    proof {
        assert(batch@.take(i as int) =~= batch@);
    }
    true
}

/// Every entity of a batch passed its checks.
pub(crate) proof fn all_pass(doc: DocumentView, batch: Seq<Scripted>, from: int, index: int)
    requires
        0 <= from <= index < batch.len(),
        earliest(from, batch.len() as int, member_checks(doc, batch)) is None,
    ensures
        member_checks(doc, batch)(index) is None,
    decreases index - from,
{
    if from < index {
        all_pass(doc, batch, from + 1, index);
    }
}

/// The handles of the first members of a batch.
spec fn handles_of(batch: Seq<Scripted>, count: int) -> Set<u64> {
    Set::new(
        |value: u64|
            exists|j: int|
                0 <= j < count && (#[trigger] batch[j]).entity.common.handle.value == value,
    )
}

/// One more handle joins those of the members before it.
proof fn one_more_handle(batch: Seq<Scripted>, index: int)
    requires
        0 <= index < batch.len(),
    ensures
        handles_of(batch, index + 1) == handles_of(batch, index).insert(
            batch[index].entity.common.handle.value,
        ),
        handles_of(batch, index).contains(batch[index].entity.common.handle.value)
            == comes_earlier(batch, index),
{
    let own = batch[index].entity.common.handle.value;
    assert forall|value: u64| handles_of(batch, index + 1).contains(value) == handles_of(
        batch,
        index,
    ).insert(own).contains(value) by {
        if value == own {
            assert(batch[index].entity.common.handle.value == value);
        }
    }
    assert(handles_of(batch, index + 1) =~= handles_of(batch, index).insert(own));
    if handles_of(batch, index).contains(own) {
        let j = choose|j: int|
            0 <= j < index && (#[trigger] batch[j]).entity.common.handle.value == own;
        assert(batch[j].entity.common.handle == batch[index].entity.common.handle);
    }
}

/// These are the checks of a batch.
#[verifier::opaque]
spec fn checking(checks: spec_fn(int) -> Fault, doc: DocumentView, batch: Seq<Scripted>) -> bool {
    checks == member_checks(doc, batch)
}

/// Checks the entity of a batch at a place. `fresh` tells whether no entity before
/// it has its handle.
fn check_member(
    doc: &CadDocument,
    scripted: Scripted,
    fresh: bool,
    Ghost(checks): Ghost<spec_fn(int) -> Fault>,
    Ghost(batch): Ghost<Seq<Scripted>>,
    Ghost(index): Ghost<int>,
) -> (result: Result<EntityType, String>)
    requires
        checking(checks, doc@, batch),
        0 <= index < batch.len(),
        scripted == batch[index],
        scripted.answered(),
        fresh == !comes_earlier(batch, index),
    ensures
        fault(result) == checks(index),
        result matches Ok(ready) ==> became(doc@, scripted, ready),
{
    reveal(checking);
    reveal(became);
    let handle = scripted.entity.common.handle;
    check(
        !handle.is_null() && fresh,
        &join("null or duplicate entity handle: ", &handle.show()),
    )?;
    prepare_member(doc, scripted)
}

/// What one member of a batch became.
#[verifier::opaque]
spec fn became(doc: DocumentView, scripted: Scripted, ready: EntityType) -> bool {
    replacement(doc, scripted, ready)
}

/// Checks a batch and makes all its entities ready.
fn prepare_batch(doc: &CadDocument, batch: Vec<Scripted>) -> (result: Result<
    Vec<EntityType>,
    String,
>)
    requires
        forall|i: int| 0 <= i < batch.len() ==> (#[trigger] batch@[i]).answered(),
    ensures
        fault(result) == earliest(0, batch.len() as int, member_checks(doc@, batch@)),
        result matches Ok(ready) ==> replacements(doc@, batch@, ready@),
{
    broadcast use vstd::std_specs::hash::group_hash_axioms;

    let ghost all = batch@;
    let ghost checks = member_checks(doc@, all);
    let mut waiting = reversed(batch);
    let mut seen: HashSet<u64> = HashSet::new();
    let mut ready: Vec<EntityType> = Vec::new();
    let mut complaint: Option<String> = None;
    proof {
        reveal(checking);
        assert(seen@ =~= handles_of(all, 0));
    }
    while complaint.is_none() && waiting.len() > 0
        invariant
            checking(checks, doc@, all),
            forall|i: int| 0 <= i < all.len() ==> (#[trigger] all[i]).answered(),
            complaint matches Some(message) ==> earliest(0, all.len() as int, checks) == Some(
                message@,
            ),
            complaint is None ==> {
                &&& waiting@ == all.skip(ready.len() as int).reverse()
                &&& ready.len() + waiting.len() == all.len()
                &&& seen@ == handles_of(all, ready.len() as int)
                &&& earliest(0, all.len() as int, checks) == earliest(
                    ready.len() as int,
                    all.len() as int,
                    checks,
                )
            },
            ready.len() <= all.len(),
            forall|j: int|
                0 <= j < ready.len() ==> became(doc@, #[trigger] all[j], ready@[j]),
        decreases waiting.len(),
    {
        broadcast use vstd::std_specs::hash::group_hash_axioms;

        let ghost index = ready.len() as int;
        if let Some(scripted) = waiting.pop() {
            proof {
                assert(scripted == all[index]);
                one_more_handle(all, index);
            }
            let fresh = seen.insert(scripted.entity.common.handle.value);
            match check_member(doc, scripted, fresh, Ghost(checks), Ghost(all), Ghost(index)) {
                Ok(entity) => {
                    ready.push(entity);
                    proof {
                        assert(waiting@ =~= all.skip(ready.len() as int).reverse());
                    }
                },
                Err(message) => {
                    complaint = Some(message);
                },
            }
        }
    }
    proof {
        reveal(checking);
        reveal(became);
    }
    match complaint {
        Some(message) => Err(message),
        None => Ok(ready),
    }
}

/// The entity has something of its kind to replace, and the same attributes
/// where it is a block reference.
pub open spec fn fits_in(doc: DocumentView, entity: EntityType) -> bool {
    &&& replaces(doc, entity)
    &&& !(entity.data is AttributeEntity) ==> (doc.entity(entity.common.handle) matches Some(
        existing,
    ) && existing.data.kind() == entity.data.kind() && attribute_handles(existing)
        == attribute_handles(entity))
}

/// Entities took their places one after the other.
pub open spec fn all_applied(before: SceneView, after: SceneView, entities: Seq<EntityType>) -> bool {
    exists|steps: Seq<DocumentView>|
        {
            &&& #[trigger] applied_in_steps(steps, entities)
            &&& steps[0] == before.document
            &&& after == (SceneView {
                document: steps.last(),
                geometry_epoch: epoch_after(before.geometry_epoch, entities.len()),
                ..before
            })
        }
}

/// What fits into a drawing fits into one of the same shape.
pub(crate) proof fn shape_keeps_fit(a: DocumentView, b: DocumentView, entity: EntityType)
    requires
        same_shape(a, b),
        fits_in(a, entity),
    ensures
        fits_in(b, entity),
{
    if entity.data is AttributeEntity {
        shape_keeps_slots(a, b, entity.common.owner_handle, entity.common.handle);
    } else {
        shape_keeps_places(a, b, entity.common.handle);
        seek_back_finds(
            a.entities,
            a.entities.len() as int,
            entity_with(entity.common.handle),
        );
    }
}

impl Scene {
    /// Puts entities in the places of what they replace.
    #[verifier::loop_isolation(false)]
    fn apply_all(&mut self, entities: &Vec<EntityType>)
        requires
            old(self)@.document.spare(entities.len() as int),
            forall|i: int|
                0 <= i < entities.len() ==> fits_in(old(self)@.document, #[trigger] entities@[i]),
        ensures
            all_applied(old(self)@, final(self)@, entities@),
    {
        let ghost before = self@;
        let ghost doc = self@.document;
        let ghost steps = seq![doc];
        let mut i: usize = 0;
        while i < entities.len()
            invariant
                i <= entities.len(),
                applied_in_steps(steps, entities@.take(i as int)),
                steps[0] == doc,
                self@ == (SceneView {
                    document: steps.last(),
                    geometry_epoch: epoch_after(before.geometry_epoch, i as nat),
                    ..before
                }),
                same_shape(doc, steps.last()),
                steps.last().next_handle <= doc.next_handle + i,
            decreases entities.len() - i,
        {
            let ghost current = steps.last();
            let ghost entity = entities@[i as int];
            proof {
                shape_keeps_fit(doc, current, entity);
            }
            let _applied = self.apply_entity(entities[i].copy());
            i = i + 1;
            proof {
                let after = self@.document;
                if entity.data is AttributeEntity {
                    attribute_keeps_shape(current, after, entity);
                } else {
                    replacing_keeps_shape(current, after, entity);
                }
                let earlier = steps;
                steps = steps.push(after);
                let done = entities@.take(i as int);
                assert forall|j: int| 0 <= j < done.len() implies entity_applied(
                    steps[j],
                    steps[j + 1],
                    #[trigger] done[j],
                ) by {
                    if j < i - 1 {
                        assert(done[j] == entities@.take(i - 1)[j]);
                        assert(steps[j] == earlier[j] && steps[j + 1] == earlier[j + 1]);
                    }
                }
            }
        }
        proof {
            assert(entities@.take(i as int) =~= entities@);
        }
    }
}

/// What a batch comes to. Where it is refused, or empty, nothing changes.
pub open spec fn transaction_outcome<S, C>(
    before: StudioView<S, C>,
    after: StudioView<S, C>,
    tab: int,
    open: bool,
    label: Seq<char>,
    batch: Seq<Scripted>,
    result: Result<(), String>,
) -> bool {
    &&& fault(result) == transaction_fault(before.tabs[tab].scene.document, label, batch)
    &&& if result is Err || batch.len() == 0 {
        after == before
    } else {
        transacted(before, after, tab, open, label, batch)
    }
}

/// Every replacement of a batch has a place, and there are handles for the layers
/// that it may bring along.
pub open spec fn has_room(doc: DocumentView, batch: Seq<Scripted>) -> bool {
    attributes_at_home(doc, batch) && doc.spare(batch.len() as int)
}

impl<'a, S, C> HostSession<'a, S, C> {
    /// Replaces several entities at once, as one step that can be undone. All of
    /// them are checked first: where one does not pass, nothing changes. An empty
    /// batch changes nothing either.
    pub fn update_entities_transaction(&mut self, label: &str, batch: Vec<Scripted>) -> (result:
        Result<(), String>)
        requires
            old(self).valid(),
            forall|i: int| 0 <= i < batch.len() ==> (#[trigger] batch@[i]).answered(),
            transaction_fault(old(self).doc(), label@, batch@) is None ==> has_room(
                old(self).doc(),
                batch@,
            ),
        ensures
            transaction_outcome(
                old(self).state(),
                final(self).state(),
                old(self).tab as int,
                old(self).doc_store is Some,
                label@,
                batch@,
                result,
            ),
            final(self).continues(*old(self)),
            final(self).valid(),
            *final(final(self).app) == *final(old(self).app),
    {
        let ghost doc = self.doc();
        let ghost tabs = self.app.tabs@;
        let ghost all = batch@;
        let tab: usize = self.tab;
        check(!is_blank(label), "transaction label is empty")?;
        if batch.len() == 0 {
            return Ok(());
        }
        let ready = prepare_batch(&self.app.tabs[tab].scene.document, batch)?;
        self.app.tabs[tab].push_undo_snapshot(label);
        proof {
            passing_batch_fits(doc, label@, all, ready@);
        }
        self.app.tabs[tab].scene.apply_all(&ready);
        self.app.tabs[tab].dirty = true;
        proof {
            tab_changes(tabs, self.app.tabs@, tab as int);
        }
        self.publish_document_view();
        proof {
            assert(replacements(doc, all, ready@));
        }
        Ok(())
    }

    /// Replaces several entities at once like `update_entities_transaction`, in
    /// any drawing. There is no result, and nothing changes, where the batch
    /// passes its checks but has no room: an attribute is not stored in the block
    /// reference that it names as its owner, or the handles have run out.
    pub fn try_update_entities_transaction(&mut self, label: &str, batch: Vec<Scripted>) -> (result:
        Option<Result<(), String>>)
        requires
            old(self).valid(),
            forall|i: int| 0 <= i < batch.len() ==> (#[trigger] batch@[i]).answered(),
        ensures
            result is None <==> transaction_fault(old(self).doc(), label@, batch@) is None
                && !has_room(old(self).doc(), batch@),
            result is None ==> final(self).state() == old(self).state(),
            result matches Some(outcome) ==> transaction_outcome(
                old(self).state(),
                final(self).state(),
                old(self).tab as int,
                old(self).doc_store is Some,
                label@,
                batch@,
                outcome,
            ),
            final(self).continues(*old(self)),
            final(self).valid(),
            *final(final(self).app) == *final(old(self).app),
    {
        let count: u64 = batch.len() as u64;
        let document = &self.app.tabs[self.tab].scene.document;
        if are_attributes_at_home(document, &batch) && count <= u64::MAX - document.next_handle {
            return Some(self.update_entities_transaction(label, batch));
        }
        if is_blank(label) {
            return Some(Err("transaction label is empty".to_owned()));
        }
        match prepare_batch(document, batch) {
            Err(message) => Some(Err(message)),
            Ok(_) => None,
        }
    }
}

/// A batch that passes its checks fits into its drawing.
pub(crate) proof fn passing_batch_fits(
    doc: DocumentView,
    label: Seq<char>,
    batch: Seq<Scripted>,
    ready: Seq<EntityType>,
)
    requires
        transaction_fault(doc, label, batch) is None,
        attributes_at_home(doc, batch),
        forall|i: int| 0 <= i < batch.len() ==> (#[trigger] batch[i]).answered(),
        replacements(doc, batch, ready),
    ensures
        forall|i: int| 0 <= i < ready.len() ==> fits_in(doc, #[trigger] ready[i]),
        forall|i: int|
            0 <= i < ready.len() ==> (#[trigger] ready[i]).common == batch[i].entity.common
                && ready[i].data.kind() == batch[i].entity.data.kind(),
{
    assert forall|i: int| 0 <= i < ready.len() implies fits_in(doc, #[trigger] ready[i])
        && ready[i].common == batch[i].entity.common && ready[i].data.kind()
        == batch[i].entity.data.kind() by {
        assert(replacement(doc, batch[i], ready[i]));
        all_pass(doc, batch, 0, i);
        assert(batch[i].answered());
        replacement_keeps_identity(doc, batch[i], ready[i]);
    }
}

} // verus!
