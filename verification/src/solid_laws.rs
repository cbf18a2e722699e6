//! Which solid operations are carried out, and what is in the drawing afterwards.

use crate::document::{entity_with, DocumentView};
use crate::entities::{EntityData, EntityType, SurfaceKind};
use crate::geometry::Handle;
use crate::images::image_prepared;
use crate::normalize::normalized;
use crate::plain::{
    above_zero, bounded, number_at_all, numbers_in_plain_terms, plain_number, plain_order,
    points_in_plain_terms, real_point, size, text_in_plain_terms, written,
};
use crate::records::{keyed, table_key, Layer};
use crate::scalar::{one_patterns, unit_patterns, LOOSE_BITS, Scalar, TIGHT_BITS};
use crate::scene::{
    added_entity_reads_back, entity_added, entity_placed, entity_replaced, erased, kept,
    layer_registered, locked, replaced_entity_reads_back, SceneView,
};
use crate::scripting::{added, entity_outcome, updated, Scripted};
use crate::search::{
    passing_holds, passing_keeps_found, pick_back, seek, seek_back_finds, seek_finds,
};
use crate::session::{published, recorded, with_scene};
use crate::solids::{
    finite_matrix, made, makes, operation_label, primitive_fault, request_fault, rigid, solid_done,
    solid_fault, used_up, ColumnProducts, KernelReply, Outcome, SolidOperation, SolidPrimitive,
};
use crate::studio::StudioView;
use vstd::prelude::*;
use vstd::string::*;

verus! {

/// A basic solid can be: it has a place and sizes above zero, a torus is wider than
/// its tube, and a pyramid has from three to 1024 sides.
pub open spec fn sound_primitive(primitive: SolidPrimitive) -> bool {
    match primitive {
        SolidPrimitive::Box { center, length, width, height } => real_point(center) && above_zero(
            length,
        ) && above_zero(width) && above_zero(height),
        SolidPrimitive::Wedge { origin, length, width, height } => real_point(origin)
            && above_zero(length) && above_zero(width) && above_zero(height),
        SolidPrimitive::Cylinder { center, radius, height } => real_point(center) && above_zero(
            radius,
        ) && above_zero(height),
        SolidPrimitive::Sphere { center, radius } => real_point(center) && above_zero(radius),
        SolidPrimitive::Torus { center, major, minor } => real_point(center) && above_zero(major)
            && above_zero(minor) && minor.bits < major.bits,
        SolidPrimitive::Pyramid { center, radius, height, sides } => real_point(center)
            && above_zero(radius) && above_zero(height) && 3 <= sides < 1025,
    }
}

/// The rules for basic solids pass those that can be and no others.
pub proof fn primitive_rules_pass_sound_ones(primitive: SolidPrimitive)
    ensures
        primitive_fault(primitive) is None <==> sound_primitive(primitive),
{
    numbers_in_plain_terms();
    points_in_plain_terms();
    if let SolidPrimitive::Torus { major, minor, .. } = primitive {
        plain_order(minor, major);
        plain_number(minor);
        plain_number(major);
    }
}

/// No layer is asked for, or one with a name.
pub open spec fn layer_asked(layer: Option<String>) -> bool {
    layer matches Some(name) ==> written(name@)
}

/// An entity can be the source of a profile: it is there, on a layer that is not
/// locked where it is to go, and neither a solid nor a surface.
pub open spec fn sound_source(
    doc: DocumentView,
    source: Handle,
    layer: Option<String>,
    delete_source: bool,
) -> bool {
    &&& layer_asked(layer)
    &&& doc.entity(source) matches Some(entity) && !(entity.data is Solid3D || entity.data is Body
        || entity.data is Surface)
    &&& delete_source ==> !locked(doc, source)
}

/// Longer than the number nearest `1e-9`, or no number.
pub open spec fn not_short(length: Scalar) -> bool {
    number_at_all(length) ==> 0x3e11_2e0b_e826_d695 < length.bits < 0x8000_0000_0000_0000
}

/// An entity is a solid to combine.
pub open spec fn solid_there(doc: DocumentView, handle: Handle) -> bool {
    doc.entity(handle) matches Some(entity) && entity.data is Solid3D
}

/// Within the number nearest `1e-6` of one.
pub open spec fn close_to_one(s: Scalar) -> bool {
    0x3fef_fffd_e721_0bea <= s.bits <= 0x3ff0_0001_0c6f_7a0b
}

/// The matrix keeps lengths and angles: its columns have length one and stand on
/// one another, and its last row is that of a move.
pub open spec fn keeps_lengths(matrix: Seq<Scalar>, products: ColumnProducts) -> bool {
    &&& close_to_one(products.xx)
    &&& close_to_one(products.yy)
    &&& close_to_one(products.zz)
    &&& number_at_all(products.xy) && size(products.xy) < 0x3eb0_c6f7_a0b5_ed8d
    &&& number_at_all(products.xz) && size(products.xz) < 0x3eb0_c6f7_a0b5_ed8d
    &&& number_at_all(products.yz) && size(products.yz) < 0x3eb0_c6f7_a0b5_ed8d
    &&& number_at_all(matrix[3]) && size(matrix[3]) < 0x3e11_2e0b_e826_d695
    &&& number_at_all(matrix[7]) && size(matrix[7]) < 0x3e11_2e0b_e826_d695
    &&& number_at_all(matrix[11]) && size(matrix[11]) < 0x3e11_2e0b_e826_d695
    &&& 0x3fef_ffff_ff76_8fa1 <= matrix[15].bits <= 0x3ff0_0000_0044_b82f
}

/// An operation can be put to the kernel.
pub open spec fn sound_request(doc: DocumentView, operation: SolidOperation) -> bool {
    match operation {
        SolidOperation::Create { primitive, .. } => sound_primitive(primitive),
        SolidOperation::RegionFromProfile { source, layer, delete_source } => sound_source(
            doc,
            source,
            layer,
            delete_source,
        ),
        SolidOperation::SurfaceFromProfile { source, layer, delete_source } => sound_source(
            doc,
            source,
            layer,
            delete_source,
        ),
        SolidOperation::Extrude { source, direction, layer, delete_source } => real_point(direction)
            && not_short(direction.length) && sound_source(doc, source, layer, delete_source),
        SolidOperation::EmbedPicture { path: _, origin, width, layer } => real_point(origin)
            && above_zero(width) && layer_asked(layer),
        SolidOperation::Boolean { first, second, operation: _, layer, keep_operands } => {
            &&& first.value != second.value
            &&& layer_asked(layer)
            &&& solid_there(doc, first)
            &&& solid_there(doc, second)
            &&& !keep_operands ==> !locked(doc, first) && !locked(doc, second)
        },
        SolidOperation::Transform { handle, matrix, products } => {
            &&& forall|i: int| 0 <= i < 16 ==> bounded(#[trigger] matrix@[i])
            &&& keeps_lengths(matrix@, products)
            &&& doc.entity(handle) matches Some(entity) && (entity.data is Solid3D
                || entity.data is Body || entity.data is Region || entity.data is Surface)
            &&& !locked(doc, handle)
        },
    }
}

proof fn slight_in_plain_terms(s: Scalar, tolerance: u64)
    requires
        0 < tolerance < 0x7ff0_0000_0000_0000,
    ensures
        crate::solids::slight(s, tolerance) == (number_at_all(s) && size(s) < tolerance),
{
    let limit = Scalar { bits: tolerance };
    plain_number(s);
    plain_number(s.absolute());
    plain_number(limit);
    plain_order(s.absolute(), limit);
}

proof fn rigid_in_plain_terms(matrix: Seq<Scalar>, products: ColumnProducts)
    ensures
        rigid(matrix, products) == keeps_lengths(matrix, products),
{
    unit_well(products.xx);
    unit_well(products.yy);
    unit_well(products.zz);
    one_well(matrix[15]);
    slight_in_plain_terms(products.xy, LOOSE_BITS);
    slight_in_plain_terms(products.xz, LOOSE_BITS);
    slight_in_plain_terms(products.yz, LOOSE_BITS);
    slight_in_plain_terms(matrix[3], TIGHT_BITS);
    slight_in_plain_terms(matrix[7], TIGHT_BITS);
    slight_in_plain_terms(matrix[11], TIGHT_BITS);
}

proof fn unit_well(s: Scalar)
    ensures
        s.well_around_one(Scalar { bits: LOOSE_BITS }) == close_to_one(s),
{
    unit_patterns(s);
}

proof fn one_well(s: Scalar)
    ensures
        s.well_around_one(Scalar { bits: TIGHT_BITS }) == (0x3fef_ffff_ff76_8fa1 <= s.bits
            <= 0x3ff0_0000_0044_b82f),
{
    one_patterns(s);
}

/// The rules for operations pass those that can be put to the kernel and no others.
pub proof fn request_rules_pass_sound_ones(doc: DocumentView, operation: SolidOperation)
    ensures
        request_fault(doc, operation) is None <==> sound_request(doc, operation),
{
    numbers_in_plain_terms();
    points_in_plain_terms();
    text_in_plain_terms();
    match operation {
        SolidOperation::Create { primitive, .. } => primitive_rules_pass_sound_ones(primitive),
        SolidOperation::Extrude { direction, .. } => {
            let limit = Scalar { bits: TIGHT_BITS };
            plain_number(direction.length);
            plain_number(limit);
            plain_order(direction.length, limit);
        },
        SolidOperation::Transform { matrix, products, .. } => {
            rigid_in_plain_terms(matrix@, products);
            if forall|i: int| 0 <= i < 16 ==> bounded(#[trigger] matrix@[i]) {
                assert forall|i: int| 0 <= i < matrix@.len() implies (
                #[trigger] matrix@[i]).finite() by {
                    assert(bounded(matrix@[i]));
                }
            }
            if finite_matrix(matrix@) {
                assert forall|i: int| 0 <= i < 16 implies bounded(#[trigger] matrix@[i]) by {
                    assert(matrix@[i].finite());
                }
            }
        },
        _ => {},
    }
}

/// The kernel built what was asked for, in a form that can be kept.
pub open spec fn kernel_built(outcome: Outcome) -> bool {
    !(outcome is Refused) && !(outcome is Lossy)
}

/// The answer of the kernel can be used.
pub open spec fn sound_reply(
    doc: DocumentView,
    operation: SolidOperation,
    reply: KernelReply,
) -> bool {
    match operation {
        SolidOperation::Create { layer, .. } => layer_asked(layer) && (
        reply matches KernelReply::Body(outcome) && kernel_built(outcome)),
        SolidOperation::RegionFromProfile { source, .. } => profile_usable(doc, source, reply)
            && reply->closed,
        SolidOperation::SurfaceFromProfile { source, .. } => profile_usable(doc, source, reply)
            && reply->closed,
        SolidOperation::Extrude { source, .. } => profile_usable(doc, source, reply),
        SolidOperation::EmbedPicture { .. } => reply matches KernelReply::Picture(read)
            && read is Ok,
        SolidOperation::Boolean { .. } => reply matches KernelReply::Body(outcome) && kernel_built(
            outcome,
        ),
        SolidOperation::Transform { .. } => reply matches KernelReply::Body(outcome)
            && kernel_built(outcome),
    }
}

/// The source is a planar profile and no region, and the kernel built on it.
pub open spec fn profile_usable(doc: DocumentView, source: Handle, reply: KernelReply) -> bool {
    &&& reply matches KernelReply::Profile { closed: _, outcome } && kernel_built(outcome)
    &&& doc.entity(source) matches Some(entity) ==> !(entity.data is Region)
}

/// An operation is carried out where it can be put to the kernel and the kernel's
/// answer can be used, and refused otherwise.
pub proof fn operation_is_carried_out(
    doc: DocumentView,
    operation: SolidOperation,
    reply: KernelReply,
)
    requires
        reply.answers(operation),
    ensures
        solid_fault(doc, operation, reply) is None <==> sound_request(doc, operation)
            && sound_reply(doc, operation, reply),
{
    request_rules_pass_sound_ones(doc, operation);
    text_in_plain_terms();
}

/// Which answers of the kernel an operation can get: a body where a solid is made, a
/// profile or none where one is looked for, a picture where one is read, and for two
/// solids or a moved one also why they could not be read.
pub proof fn kernel_answers_what_is_asked(operation: SolidOperation, reply: KernelReply)
    ensures
        reply.answers(operation) <==> (match reply {
            KernelReply::Body(outcome) => operation is Create || operation is Transform || (
            operation is Boolean && !(outcome is Refused)),
            KernelReply::NoProfile | KernelReply::Profile { .. } => operation is RegionFromProfile
                || operation is SurfaceFromProfile || operation is Extrude,
            KernelReply::Picture(_) => operation is EmbedPicture,
            KernelReply::FirstUnreadable => operation is Boolean || operation is Transform,
            KernelReply::SecondUnreadable | KernelReply::Snagged(_) => operation is Boolean,
        }),
{
}

/// The entity is one that an operation uses up.
pub open spec fn goes(operation: SolidOperation, handle: Handle) -> bool {
    match operation {
        SolidOperation::RegionFromProfile { source, delete_source, .. } => delete_source && handle
            == source,
        SolidOperation::SurfaceFromProfile { source, delete_source, .. } => delete_source && handle
            == source,
        SolidOperation::Extrude { source, delete_source, .. } => delete_source && handle == source,
        SolidOperation::Boolean { first, second, keep_operands, .. } => !keep_operands && (handle
            == first || handle == second),
        _ => false,
    }
}

/// What an operation uses up: the source of a profile where it is to be deleted,
/// and both solids of a combination where they are not to be kept.
pub proof fn operation_uses_up(operation: SolidOperation)
    ensures
        forall|handle: Handle| #[trigger]
            used_up(operation).contains(handle) <==> goes(operation, handle),
{
    let gone = used_up(operation);
    assert forall|handle: Handle| #[trigger] gone.contains(handle) <==> goes(
        operation,
        handle,
    ) by {
        if goes(operation, handle) {
            match operation {
                SolidOperation::Boolean { first, second, .. } => {
                    assert(gone[0] == first && gone[1] == second);
                },
                _ => {
                    assert(gone[0] == handle);
                },
            }
        }
        if gone.contains(handle) {
            let i = choose|i: int| 0 <= i < gone.len() && gone[i] == handle;
            assert(i == 0 || i == 1);
        }
    }
}

/// Erasing entities takes those that are named and not on a locked layer, and
/// leaves every other as it was.
pub proof fn erasing_takes_the_named(scene: SceneView, handles: Seq<Handle>)
    ensures
        forall|handle: Handle|
            handles.contains(handle) && !locked(scene.document, handle) ==> #[trigger] erased(
                scene,
                handles,
            ).document.entity(handle) is None,
        forall|handle: Handle|
            !handles.contains(handle) || locked(scene.document, handle) ==> #[trigger] erased(
                scene,
                handles,
            ).document.entity(handle) == scene.document.entity(handle),
{
    let doc = scene.document;
    let keep = kept(doc, handles);
    let after = erased(scene, handles).document;
    passing_holds(doc.entities, keep);
    assert forall|handle: Handle|
        handles.contains(handle) && !locked(doc, handle) implies #[trigger] after.entity(
        handle,
    ) is None by {
        seek_back_finds(after.entities, after.entities.len() as int, entity_with(handle));
        if let Some(i) = after.entity_place(handle) {
            assert(keep(after.entities[i]));
            assert(entity_with(handle)(after.entities[i]));
        }
    }
    assert forall|handle: Handle|
        !handles.contains(handle) || locked(doc, handle) implies #[trigger] after.entity(handle)
        == doc.entity(handle) by {
        let test = entity_with(handle);
        assert forall|i: int| 0 <= i < doc.entities.len() && test(
            #[trigger] doc.entities[i],
        ) implies keep(doc.entities[i]) by {}
        passing_keeps_found(doc.entities, keep, test);
        assert(pick_back(after.entities, test) == after.entity(handle));
        assert(pick_back(doc.entities, test) == doc.entity(handle));
    }
}

/// Adding an entity changes no other, and unlocks and locks none.
pub proof fn adding_keeps_others(before: DocumentView, after: DocumentView, entity: EntityType)
    requires
        entity_added(before, after, entity),
        before.spare(2),
    ensures
        forall|handle: Handle|
            handle != after.entities.last().common.handle ==> #[trigger] after.entity(handle)
                == before.entity(handle),
        forall|handle: Handle|
            handle != after.entities.last().common.handle && !locked(before, handle)
                ==> !#[trigger] locked(after, handle),
{
    let middle = choose|middle: DocumentView| #[trigger]
        layer_registered(before, middle, entity.common.layer@) && entity_placed(
            middle,
            after,
            entity,
        );
    let new = after.entities.last();
    assert(after.entities == before.entities.push(new));
    assert forall|handle: Handle| handle != new.common.handle implies #[trigger] after.entity(
        handle,
    ) == before.entity(handle) by {
        let test = entity_with(handle);
        let count = before.entities.len() as int;
        seek_back_finds(before.entities, count, test);
        seek_back_finds(after.entities, count + 1, test);
        if let Some(i) = before.entity_place(handle) {
            assert(test(after.entities[i]));
        }
        if let Some(i) = after.entity_place(handle) {
            assert(i < count);
            assert(test(before.entities[i]));
        }
    }
    assert forall|handle: Handle|
        handle != new.common.handle && !locked(before, handle) implies !#[trigger] locked(
        after,
        handle,
    ) by {
        assert(after.entity(handle) == before.entity(handle));
        if before.entity(handle) is Some {
            let name = before.entity(handle)->Some_0.common.layer@;
            let test = keyed::<Layer>(table_key(name));
            seek_finds(before.layers, 0, test);
            seek_finds(after.layers, 0, test);
            if let Some(i) = seek(after.layers, 0, test) {
                if i < before.layers.len() {
                    assert(after.layers[i] == before.layers[i]);
                    assert(test(before.layers[i]));
                    let j = seek(before.layers, 0, test)->Some_0;
                    assert(test(after.layers[j]));
                    assert(after.layers[j] == before.layers[j]);
                }
            }
        }
    }
}

/// The drawing after an operation that makes something: the new entity stands in it
/// under the handle that is given back, what the operation uses up is gone, and
/// every other entity is as it was.
pub open spec fn made_in(
    before: DocumentView,
    after: DocumentView,
    operation: SolidOperation,
    reply: KernelReply,
    handle: Handle,
) -> bool {
    &&& before.entity(handle) is None
    &&& after.entity(handle) matches Some(entity) && result_of(before, operation, reply, entity)
    &&& forall|other: Handle|
        #![trigger after.entity(other)]
        other != handle && goes(operation, other) ==> after.entity(other) is None
    &&& forall|other: Handle|
        #![trigger after.entity(other)]
        other != handle && !goes(operation, other) ==> after.entity(other) == before.entity(other)
}

/// The layer of a result: the one that is asked for, or that of the entity that it
/// was made from, or the first.
pub open spec fn on_layer(asked: Option<String>, source: Option<EntityType>) -> Seq<char> {
    if asked is Some {
        asked->Some_0@
    } else if source is Some {
        source->Some_0.common.layer@
    } else {
        "0"@
    }
}

/// What an operation makes: a solid, a region, a plane surface, from an open profile
/// a surface, or an embedded picture, with what the kernel built and on its layer.
pub open spec fn result_of(
    doc: DocumentView,
    operation: SolidOperation,
    reply: KernelReply,
    entity: EntityType,
) -> bool {
    &&& (reply matches KernelReply::Body(outcome) ==> outcome == Outcome::Built(entity.record))
    &&& (reply matches KernelReply::Profile { closed: _, outcome } ==> outcome == Outcome::Built(
        entity.record,
    ))
    &&& (reply matches KernelReply::Picture(read) ==> read matches Ok(record) && record
        == entity.record)
    &&& match operation {
        SolidOperation::Create { layer, .. } => entity.data is Solid3D && entity.common.layer@
            == on_layer(layer, None),
        SolidOperation::RegionFromProfile { source, layer, .. } => entity.data is Region
            && entity.common.layer@ == on_layer(layer, doc.entity(source)),
        SolidOperation::SurfaceFromProfile { source, layer, .. } => entity.data
            == EntityData::Surface(SurfaceKind::Plane) && entity.common.layer@ == on_layer(
            layer,
            doc.entity(source),
        ),
        SolidOperation::Extrude { source, layer, .. } => entity.data == (if reply->closed {
            EntityData::Solid3D
        } else {
            EntityData::Surface(SurfaceKind::Generic)
        }) && entity.common.layer@ == on_layer(layer, doc.entity(source)),
        SolidOperation::EmbedPicture { layer, .. } => entity.data is Ole2Frame
            && entity.common.layer@ == on_layer(layer, None),
        SolidOperation::Boolean { first, layer, .. } => entity.data is Solid3D
            && entity.common.layer@ == on_layer(layer, doc.entity(first))
            && entity.common.look == doc.entity(first)->Some_0.common.look
            && entity.common.extended_data == doc.entity(first)->Some_0.common.extended_data,
        SolidOperation::Transform { .. } => true,
    }
}

proof fn added_result<S, C>(
    before: StudioView<S, C>,
    middle: StudioView<S, C>,
    tab: int,
    open: bool,
    scripted: Scripted,
    handle: Handle,
)
    requires
        0 <= tab < before.tabs.len(),
        added(before, middle, tab, open, scripted, handle),
        scripted.derived is Nothing,
        scripted.entity.common.handle.null(),
        scripted.entity.data is Solid3D || scripted.entity.data is Region
            || scripted.entity.data is Surface || scripted.entity.data is Ole2Frame
            || scripted.entity.data is Body,
        before.tabs[tab].scene.document.ordered(),
        before.tabs[tab].scene.document.spare(4),
    ensures
        entity_added(
            before.tabs[tab].scene.document,
            middle.tabs[tab].scene.document,
            scripted.entity,
        ),
        handle == middle.tabs[tab].scene.document.entities.last().common.handle,
        handle.value >= before.tabs[tab].scene.document.next_handle,
{
    let doc = before.tabs[tab].scene.document;
    let changed = middle.tabs[tab].scene.document;
    let (prepared, linked, ready) = choose|
        prepared: DocumentView,
        linked: EntityType,
        ready: EntityType,
    |
        {
            &&& #[trigger] image_prepared(doc, prepared, scripted.entity, linked, scripted.file)
            &&& #[trigger] normalized(prepared, None, linked, ready, scripted.derived)
            &&& if ready.data is AttributeEntity {
                crate::scripting::attribute_outcome(before, middle, tab, open, ready, handle)
            } else {
                entity_outcome(before, middle, tab, open, prepared, ready, handle)
            }
        };
    assert(ready == scripted.entity);
    assert(entity_added(doc, changed, scripted.entity));
}

/// After an operation that makes something, the new entity is in the drawing under
/// the handle that is given back. A source that was to be deleted is gone, and so
/// are two solids that were combined and not kept; every other entity is as it was.
pub proof fn operation_makes_its_result<S, C>(
    before: StudioView<S, C>,
    after: StudioView<S, C>,
    tab: int,
    open: bool,
    operation: SolidOperation,
    reply: KernelReply,
    handle: Handle,
)
    requires
        0 <= tab < before.tabs.len(),
        !(operation is Transform),
        reply.answers(operation),
        solid_fault(before.tabs[tab].scene.document, operation, reply) is None,
        solid_done(before, after, tab, open, operation, reply, handle),
        before.tabs[tab].scene.document.ordered(),
        before.tabs[tab].scene.document.spare(4),
    ensures
        made_in(
            before.tabs[tab].scene.document,
            after.tabs[tab].scene.document,
            operation,
            reply,
            handle,
        ),
{
    let doc = before.tabs[tab].scene.document;
    let end = after.tabs[tab].scene.document;
    let start = recorded(before, tab, operation_label(operation));
    let gone = used_up(operation);
    operation_is_carried_out(doc, operation, reply);
    operation_uses_up(operation);
    let entity = choose|entity: EntityType| #[trigger]
        makes(doc, operation, reply, entity) && made(
            start,
            after,
            tab,
            open,
            entity,
            gone,
            handle,
        );
    let (scripted, middle) = choose|scripted: Scripted, middle: StudioView<S, C>|
        {
            &&& #[trigger] added(start, middle, tab, open, scripted, handle)
            &&& scripted.entity == entity
            &&& scripted.derived is Nothing
            &&& after == if gone.len() == 0 {
                middle
            } else {
                published(
                    with_scene(middle, tab, erased(middle.tabs[tab].scene, gone)),
                    tab,
                    open,
                )
            }
        };
    added_result(start, middle, tab, open, scripted, handle);
    let changed = middle.tabs[tab].scene.document;
    added_entity_reads_back(doc, changed, entity);
    adding_keeps_others(doc, changed, entity);
    seek_back_finds(doc.entities, doc.entities.len() as int, entity_with(handle));
    if let Some(i) = doc.entity_place(handle) {
        assert(doc.entities[i].common.handle == handle);
    }
    assert forall|other: Handle| goes(operation, other) implies other != handle && !locked(
        doc,
        other,
    ) by {
        seek_back_finds(doc.entities, doc.entities.len() as int, entity_with(other));
        assert(doc.entity(other) is Some);
    }
    assert(!gone.contains(handle));
    erasing_takes_the_named(middle.tabs[tab].scene, gone);
    assert(gone.len() == 0 ==> forall|other: Handle| !gone.contains(other));
    assert(end.entity(handle) == changed.entity(handle));
    assert forall|other: Handle|
        #![trigger end.entity(other)]
        other != handle && goes(operation, other) implies end.entity(other) is None by {
        assert(gone.contains(other));
        assert(!locked(changed, other));
    }
    assert forall|other: Handle|
        #![trigger end.entity(other)]
        other != handle && !goes(operation, other) implies end.entity(other) == doc.entity(
        other,
    ) by {
        assert(!gone.contains(other));
        assert(changed.entity(other) == doc.entity(other));
    }
}

/// Moving an entity gives back its handle. It stays what it is and where it belongs,
/// with the body that the kernel built; a surface that is not plane becomes a
/// general one. Every other entity is as it was.
pub proof fn transform_moves_the_entity<S, C>(
    before: StudioView<S, C>,
    after: StudioView<S, C>,
    tab: int,
    open: bool,
    operation: SolidOperation,
    reply: KernelReply,
    handle: Handle,
)
    requires
        0 <= tab < before.tabs.len(),
        operation is Transform,
        reply.answers(operation),
        solid_fault(before.tabs[tab].scene.document, operation, reply) is None,
        solid_done(before, after, tab, open, operation, reply, handle),
    ensures
        operation matches SolidOperation::Transform { handle: target, .. } && handle == target,
        before.tabs[tab].scene.document.entity(handle) matches Some(old) && (
        after.tabs[tab].scene.document.entity(handle) matches Some(new) && {
            &&& new.common == old.common
            &&& reply == KernelReply::Body(Outcome::Built(new.record))
            &&& !(old.data is Surface) ==> new.data == old.data
            &&& old.data is Surface ==> (new.data == EntityData::Surface(SurfaceKind::Plane)
                <==> old.data == EntityData::Surface(SurfaceKind::Plane))
            &&& old.data is Surface && old.data != EntityData::Surface(SurfaceKind::Plane)
                ==> new.data == EntityData::Surface(SurfaceKind::Generic)
        }),
        forall|other: Handle|
            #![trigger after.tabs[tab].scene.document.entity(other)]
            other != handle ==> after.tabs[tab].scene.document.entity(other)
                == before.tabs[tab].scene.document.entity(other),
{
    let doc = before.tabs[tab].scene.document;
    let end = after.tabs[tab].scene.document;
    let start = recorded(before, tab, operation_label(operation));
    operation_is_carried_out(doc, operation, reply);
    let entity = choose|entity: EntityType| #[trigger]
        makes(doc, operation, reply, entity) && crate::solids::moved(
            start,
            after,
            tab,
            open,
            entity,
        );
    let scripted = choose|scripted: Scripted|
        {
            &&& #[trigger] updated(start, after, tab, open, scripted, true)
            &&& scripted.entity == entity
            &&& scripted.derived is Nothing
        };
    let ready = choose|ready: EntityType|
        {
            &&& #[trigger] normalized(
                doc,
                doc.entity(entity.common.handle),
                entity,
                ready,
                scripted.derived,
            )
            &&& crate::scripting::replaces(doc, ready)
            &&& crate::scripting::entity_applied(doc, end, ready)
        };
    seek_back_finds(doc.entities, doc.entities.len() as int, entity_with(handle));
    assert(ready == entity);
    assert(entity_replaced(doc, end, entity));
    replaced_entity_reads_back(doc, end, entity);
    replacing_keeps_others(doc, end, entity);
}

/// Replacing an entity changes no other.
pub proof fn replacing_keeps_others(before: DocumentView, after: DocumentView, entity: EntityType)
    requires
        entity_replaced(before, after, entity),
    ensures
        forall|handle: Handle|
            handle != entity.common.handle ==> #[trigger] after.entity(handle) == before.entity(
                handle,
            ),
{
    let place = before.entity_place(entity.common.handle)->Some_0;
    seek_back_finds(
        before.entities,
        before.entities.len() as int,
        entity_with(entity.common.handle),
    );
    assert forall|handle: Handle| handle != entity.common.handle implies #[trigger] after.entity(
        handle,
    ) == before.entity(handle) by {
        let test = entity_with(handle);
        let count = before.entities.len() as int;
        seek_back_finds(before.entities, count, test);
        seek_back_finds(after.entities, count, test);
        if let Some(i) = before.entity_place(handle) {
            assert(i != place);
            assert(test(after.entities[i]));
        }
        if let Some(i) = after.entity_place(handle) {
            assert(i != place);
            assert(test(before.entities[i]));
        }
    }
}

} // verus!
