//! What the operations on layers that were not refused come to, as a reader of the
//! drawing sees it.

use crate::document::DocumentView;
use crate::entities::{AttributeRecord, EntityCommon, EntityType, ExtendedDataRecord, XDataValue};
use crate::filing::{deleted_layer_is_gone, renamed_layer_is_refiled};
use crate::geometry::Handle;
use crate::layer_laws::{
    changed_layer_reads_back, layer_is_found, layers_told, made_layer_reads_back, only_drawing,
    only_layers, only_tab, reads_back,
};
use crate::layer_ops::{entity_followed, layer_renamed};
use crate::layers::{layer_members, on_layer, LayerConfig};
use crate::records::{keyed, table_key, Layer};
use crate::scene::{locked, SceneView};
use crate::scene_laws::{erasing_takes_the_unlocked, same_furniture};
use crate::search::{passing, passing_holds, seek, seek_finds};
use crate::session::recorded;
use crate::studio::{StudioView, TabView};
use crate::style_ops::TableOperation;
use crate::table_ops::operation_done;
use crate::text::{trimmed, upper};
use vstd::prelude::*;
use vstd::string::*;

verus! {

/// The drawing as it was can be had back, under the label, and nothing can be redone.
pub open spec fn remembered<S, C>(
    before: StudioView<S, C>,
    after: StudioView<S, C>,
    tab: int,
    label: Seq<char>,
) -> bool {
    let undo = after.tabs[tab].undo;
    let old_undo = before.tabs[tab].undo;
    &&& undo.len() == old_undo.len() + 1
    &&& undo.last().label == label
    &&& undo.last().document == before.tabs[tab].scene.document
    &&& undo.drop_last() == old_undo
    &&& after.tabs[tab].redo.len() == 0
}

/// A change of a layer reads back, can be undone, and gives the handle of the layer.
pub proof fn change_operation_reads_back<S, C>(
    before: StudioView<S, C>,
    after: StudioView<S, C>,
    tab: int,
    open: bool,
    config: LayerConfig,
    handle: Handle,
)
    requires
        0 <= tab < before.tabs.len(),
        before.tabs[tab].scene.document.spare(before.standard_linetypes.len() as int),
        operation_done(before, after, tab, open, TableOperation::LayerModify { config }, handle),
    ensures
        ({
            let doc = before.tabs[tab].scene.document;
            let end = after.tabs[tab].scene.document;
            let name = trimmed(config.name@);
            &&& doc.layer(name) is Some
            &&& end.layer(name) is Some
            &&& reads_back(config, doc.layer(name)->Some_0, end.layer(name)->Some_0)
            &&& handle == end.layer(name)->Some_0.handle
            &&& forall|other: Seq<char>|
                table_key(other) != table_key(name) ==> #[trigger] end.layer(other) == doc.layer(
                    other,
                )
            &&& only_layers(doc, end)
            &&& only_tab(before, after, tab)
            &&& only_drawing(before.tabs[tab], after.tabs[tab])
            &&& layers_told(before, after, tab, open, seq![name])
            &&& remembered(before, after, tab, "Modify layer"@)
        }),
{
    let start = recorded(before, tab, "Modify layer"@);
    changed_layer_reads_back(start, after, tab, open, config, true);
    assert(start.tabs[tab].undo.drop_last() =~= before.tabs[tab].undo);
}

/// A layer that was made is there, can be undone, and has the handle that was given.
pub proof fn make_operation_reads_back<S, C>(
    before: StudioView<S, C>,
    after: StudioView<S, C>,
    tab: int,
    open: bool,
    config: LayerConfig,
    handle: Handle,
)
    requires
        0 <= tab < before.tabs.len(),
        before.tabs[tab].scene.document.spare(before.standard_linetypes.len() as int + 1),
        operation_done(before, after, tab, open, TableOperation::LayerCreate { config }, handle),
    ensures
        ({
            let doc = before.tabs[tab].scene.document;
            let end = after.tabs[tab].scene.document;
            let name = trimmed(config.name@);
            &&& doc.layer(name) is None
            &&& end.layer(name) is Some
            &&& end.layer(name)->Some_0.name@ == name
            &&& end.layer(name)->Some_0.handle == handle
            &&& end.layer(name)->Some_0.locked == (config.locked == Some(true))
            &&& end.layer(name)->Some_0.off == (config.off == Some(true))
            &&& end.layer(name)->Some_0.frozen == (config.frozen == Some(true))
            &&& end.layer(name)->Some_0.is_plottable == (config.plottable != Some(false))
            &&& config.color is Some ==> end.layer(name)->Some_0.color == config.color->Some_0
            &&& config.lineweight is Some ==> end.layer(name)->Some_0.line_weight
                == config.lineweight->Some_0
            &&& only_layers(doc, end)
            &&& only_tab(before, after, tab)
            &&& only_drawing(before.tabs[tab], after.tabs[tab])
            &&& layers_told(before, after, tab, open, seq![name])
            &&& remembered(before, after, tab, "Create layer"@)
        }),
{
    let start = recorded(before, tab, "Create layer"@);
    made_layer_reads_back(start, after, tab, open, config, Some(handle));
    layer_is_found(start.tabs[tab].scene.document, trimmed(config.name@));
    assert(start.tabs[tab].undo.drop_last() =~= before.tabs[tab].undo);
}

/// A name of the layer is the new one now, and any other name stays.
pub open spec fn name_moves(from: Seq<char>, to: Seq<char>, before: Seq<char>, after: Seq<char>) -> bool {
    &&& table_key(before) == table_key(from) ==> after == to
    &&& table_key(before) != table_key(from) ==> after == before
}

/// The layer of an entity and the layer names in its extended data move.
pub open spec fn common_moves(
    from: Seq<char>,
    to: Seq<char>,
    before: EntityCommon,
    after: EntityCommon,
) -> bool {
    let records = before.extended_data.records@;
    let ends = after.extended_data.records@;
    &&& name_moves(from, to, before.layer@, after.layer@)
    &&& after.handle == before.handle
    &&& after.owner_handle == before.owner_handle
    &&& after.on_paper == before.on_paper
    &&& after.look == before.look
    &&& after.extended_data.raw_dwg_eed@ == before.extended_data.raw_dwg_eed@
    &&& ends.len() == records.len()
    &&& forall|i: int|
        0 <= i < records.len() ==> record_moves(from, to, #[trigger] records[i], ends[i])
}

/// The layer names in a record of extended data move, and every other value stays.
pub open spec fn record_moves(
    from: Seq<char>,
    to: Seq<char>,
    before: ExtendedDataRecord,
    after: ExtendedDataRecord,
) -> bool {
    &&& after.application_name == before.application_name
    &&& after.values@.len() == before.values@.len()
    &&& forall|i: int|
        #![trigger before.values@[i]]
        0 <= i < before.values@.len() ==> value_moves(from, to, before.values@[i], after.values@[i])
}

pub open spec fn value_moves(
    from: Seq<char>,
    to: Seq<char>,
    before: XDataValue,
    after: XDataValue,
) -> bool {
    &&& before is LayerName ==> after is LayerName && name_moves(
        from,
        to,
        before->LayerName_0@,
        after->LayerName_0@,
    )
    &&& before is BinaryData ==> after is BinaryData && after->BinaryData_0@
        == before->BinaryData_0@
    &&& !(before is LayerName || before is BinaryData) ==> after == before
}

/// An attribute of a block reference moves.
pub open spec fn attribute_moves(
    from: Seq<char>,
    to: Seq<char>,
    before: AttributeRecord,
    after: AttributeRecord,
) -> bool {
    &&& common_moves(from, to, before.common, after.common)
    &&& after.value == before.value
    &&& after.record == before.record
}

/// An entity moves, and so do the attributes of a block reference.
pub open spec fn entity_moves(
    from: Seq<char>,
    to: Seq<char>,
    before: EntityType,
    after: EntityType,
) -> bool {
    &&& common_moves(from, to, before.common, after.common)
    &&& after.record == before.record
    &&& !(before.data is Insert) ==> after.data == before.data
    &&& before.data is Insert ==> {
        let old_list = before.data->Insert_0.attributes@;
        let list = after.data->Insert_0.attributes@;
        &&& after.data is Insert
        &&& list.len() == old_list.len()
        &&& forall|i: int|
            0 <= i < list.len() ==> attribute_moves(from, to, #[trigger] old_list[i], list[i])
        &&& after.data->Insert_0.block_name == before.data->Insert_0.block_name
        &&& after.data->Insert_0.insert_point == before.data->Insert_0.insert_point
    }
}

proof fn followed_common_moves(
    before: &EntityCommon,
    after: &EntityCommon,
    from: Seq<char>,
    to: Seq<char>,
)
    requires
        crate::layer_ops::common_followed(*before, *after, table_key(from), to),
    ensures
        common_moves(from, to, *before, *after),
{
    let key = table_key(from);
    let records = before.extended_data.records@;
    let ends = after.extended_data.records@;
    assert forall|i: int| 0 <= i < records.len() implies record_moves(
        from,
        to,
        #[trigger] records[i],
        ends[i],
    ) by {
        assert(crate::layer_ops::record_followed(records[i], ends[i], key, to));
        let old_values = records[i].values@;
        assert forall|j: int|
            #![trigger old_values[j]]
            0 <= j < old_values.len() implies value_moves(
            from,
            to,
            old_values[j],
            ends[i].values@[j],
        ) by {
            assert(crate::layer_ops::value_followed(old_values[j], ends[i].values@[j], key, to));
        }
    }
}

proof fn followed_entity_moves(
    before: &EntityType,
    after: &EntityType,
    from: Seq<char>,
    to: Seq<char>,
)
    requires
        entity_followed(*before, *after, table_key(from), to),
    ensures
        entity_moves(from, to, *before, *after),
{
    followed_common_moves(&before.common, &after.common, from, to);
    if before.data is Insert {
        let old_list = before.data->Insert_0.attributes@;
        let list = after.data->Insert_0.attributes@;
        assert forall|i: int| 0 <= i < list.len() implies attribute_moves(
            from,
            to,
            #[trigger] old_list[i],
            list[i],
        ) by {
            assert(crate::layer_ops::attribute_followed(
                old_list[i],
                list[i],
                table_key(from),
                to,
            ));
            followed_common_moves(&old_list[i].common, &list[i].common, from, to);
        }
    }
}

/// After a layer was renamed it is found under the new name, with every property that
/// it had under the old one. Entities, attributes, extended data, the current layer and
/// the panel that named it name it still, and nothing else changes.
pub proof fn rename_operation_reads_back<S, C>(
    before: StudioView<S, C>,
    after: StudioView<S, C>,
    tab: int,
    open: bool,
    from: String,
    to: String,
    handle: Handle,
)
    requires
        0 <= tab < before.tabs.len(),
        before.tabs[tab].scene.document.filed(),
        table_key(trimmed(to@)) == table_key(trimmed(from@))
            || before.tabs[tab].scene.document.layer(trimmed(to@)) is None,
        operation_done(before, after, tab, open, TableOperation::LayerRename { from, to }, handle),
    ensures
        ({
            let doc = before.tabs[tab].scene.document;
            let end = after.tabs[tab].scene.document;
            let layer = doc.layer(trimmed(from@))->Some_0;
            let named = end.layer(trimmed(to@))->Some_0;
            let old_name = trimmed(from@);
            let new_name = trimmed(to@);
            &&& doc.layer(old_name) is Some
            &&& end.layer(new_name) is Some
            &&& named.name@ == new_name
            &&& handle == layer.handle
            &&& named.handle == layer.handle
            &&& named.off == layer.off && named.frozen == layer.frozen && named.locked
                == layer.locked
            &&& named.is_plottable == layer.is_plottable
            &&& named.color == layer.color && named.color_name == layer.color_name
                && named.book_name == layer.book_name
            &&& named.line_type == layer.line_type && named.line_weight == layer.line_weight
            &&& named.transparency == layer.transparency
            &&& named.description == layer.description && named.record == layer.record
            &&& end.layers.len() == doc.layers.len()
            &&& table_key(new_name) != table_key(old_name) ==> end.layer(old_name) is None
            &&& forall|other: Seq<char>|
                table_key(other) != table_key(old_name) && table_key(other) != table_key(new_name)
                    ==> #[trigger] end.layer(other) == doc.layer(other)
            &&& end.entities.len() == doc.entities.len()
            &&& forall|i: int|
                0 <= i < doc.entities.len() ==> entity_moves(
                    old_name,
                    new_name,
                    #[trigger] doc.entities[i],
                    end.entities[i],
                )
            &&& name_moves(
                old_name,
                new_name,
                doc.header.current_layer_name@,
                end.header.current_layer_name@,
            )
            &&& name_moves(
                old_name,
                new_name,
                before.tabs[tab].active_layer,
                after.tabs[tab].active_layer,
            )
            &&& name_moves(
                old_name,
                new_name,
                before.tabs[tab].panel_layer,
                after.tabs[tab].panel_layer,
            )
            &&& end.objects == doc.objects && end.text_styles == doc.text_styles
                && end.dim_styles == doc.dim_styles && end.line_types == doc.line_types
                && end.block_records == doc.block_records && end.app_ids == doc.app_ids
                && end.next_handle == doc.next_handle
            &&& end.header.current_text_style_name == doc.header.current_text_style_name
            &&& end.header.current_dimstyle_name == doc.header.current_dimstyle_name
            &&& only_tab(before, after, tab)
            &&& only_drawing(before.tabs[tab], after.tabs[tab])
            &&& layers_told(before, after, tab, open, seq![old_name, new_name])
            &&& remembered(before, after, tab, "Rename layer"@)
        }),
{
    let old_name = trimmed(from@);
    let new_name = trimmed(to@);
    let start = recorded(before, tab, "Rename layer"@);
    let view = choose|view: TabView<S, C>| #[trigger]
        layer_renamed(start.tabs[tab], view, old_name, new_name) && after
            == crate::layers::layers_announced(
            start.with_tab(tab, view),
            tab,
            open,
            seq![old_name, new_name],
        );
    let doc = before.tabs[tab].scene.document;
    let end = after.tabs[tab].scene.document;
    assert(start.tabs[tab].undo.drop_last() =~= before.tabs[tab].undo);
    renamed_layer_is_refiled(start.tabs[tab], view, old_name, new_name);
    let test = keyed::<Layer>(table_key(old_name));
    seek_finds(doc.layers, 0, test);
    let i = seek(doc.layers, 0, test)->Some_0;
    let there = keyed::<Layer>(table_key(new_name));
    seek_finds(end.layers, 0, there);
    assert(there(end.layers[i]));
    let k = seek(end.layers, 0, there)->Some_0;
    assert(there(end.layers[k]));
    if k < i {
        assert(end.layers[k] == doc.layers[k]);
        seek_finds(doc.layers, 0, there);
        assert(there(doc.layers[k]));
    }
    assert(k == i);
    assert forall|j: int| 0 <= j < doc.entities.len() implies entity_moves(
        old_name,
        new_name,
        #[trigger] doc.entities[j],
        end.entities[j],
    ) by {
        assert(entity_followed(doc.entities[j], end.entities[j], table_key(old_name), new_name));
        followed_entity_moves(&doc.entities[j], &end.entities[j], old_name, new_name);
    }
}

/// The entity is on the layer, whatever the case of the letters of the name.
pub open spec fn lies_on(entity: EntityType, name: Seq<char>) -> bool {
    upper(entity.common.layer@) == upper(name)
}

/// After a layer was deleted it is gone, and every other layer is as before. Entities
/// off the layer stay; those on it are gone, unless what is left of the drawing locks
/// them.
pub proof fn delete_operation_reads_back<S, C>(
    before: StudioView<S, C>,
    after: StudioView<S, C>,
    tab: int,
    open: bool,
    name: String,
    erase_objects: bool,
    handle: Handle,
)
    requires
        0 <= tab < before.tabs.len(),
        before.tabs[tab].scene.document.filed(),
        operation_done(
            before,
            after,
            tab,
            open,
            TableOperation::LayerDelete { name, erase_objects },
            handle,
        ),
    ensures
        ({
            let doc = before.tabs[tab].scene.document;
            let end = after.tabs[tab].scene.document;
            let gone = trimmed(name@);
            &&& doc.layer(gone) is Some
            &&& doc.layer(gone)->Some_0.handle == handle
            &&& end.layer(gone) is None
            &&& end.layers.len() + 1 == doc.layers.len()
            &&& forall|other: Seq<char>|
                table_key(other) != table_key(gone) ==> #[trigger] end.layer(other) == doc.layer(
                    other,
                )
            &&& forall|entity: EntityType| #[trigger]
                end.entities.contains(entity) ==> doc.entities.contains(entity)
            &&& forall|i: int|
                #![trigger doc.entities[i]]
                0 <= i < doc.entities.len() && (forall|j: int|
                    0 <= j < doc.entities.len() && (#[trigger] doc.entities[j]).common.handle
                        == doc.entities[i].common.handle ==> !lies_on(doc.entities[j], gone))
                    ==> end.entities.contains(doc.entities[i])
            &&& forall|i: int|
                #![trigger doc.entities[i]]
                0 <= i < doc.entities.len() && lies_on(doc.entities[i], gone) && !locked(
                    DocumentView { layers: end.layers, ..doc },
                    doc.entities[i].common.handle,
                ) ==> !end.entities.contains(doc.entities[i])
            &&& same_furniture(doc, end)
            &&& end.block_records == doc.block_records
            &&& end.next_handle == doc.next_handle
            &&& only_tab(before, after, tab)
            &&& after.tabs[tab].active_layer == before.tabs[tab].active_layer
            &&& layers_told(before, after, tab, open, seq![gone])
            &&& remembered(before, after, tab, "Delete layer"@)
        }),
{
    let doc = before.tabs[tab].scene.document;
    let end = after.tabs[tab].scene.document;
    let gone = trimmed(name@);
    let start = recorded(before, tab, "Delete layer"@);
    assert(start.tabs[tab].undo.drop_last() =~= before.tabs[tab].undo);
    let scene = start.tabs[tab].scene;
    deleted_layer_is_gone(scene, gone);
    seek_finds(doc.layers, 0, keyed::<Layer>(table_key(gone)));
    let place = seek(doc.layers, 0, keyed::<Layer>(table_key(gone)))->Some_0;
    let without = SceneView {
        document: DocumentView { layers: doc.layers.remove(place), ..doc },
        ..scene
    };
    let handles = layer_members(doc.entities, gone);
    let members = passing(doc.entities, on_layer(gone));
    passing_holds(doc.entities, on_layer(gone));
    erasing_takes_the_unlocked(without, handles);
    assert(end.layers == doc.layers.remove(place));
    assert forall|i: int|
        #![trigger doc.entities[i]]
        0 <= i < doc.entities.len() && lies_on(doc.entities[i], gone) implies handles.contains(
        doc.entities[i].common.handle,
    ) by {
        assert(on_layer(gone)(doc.entities[i]));
        assert(doc.entities.contains(doc.entities[i]));
        assert(members.contains(doc.entities[i]));
        let k = choose|k: int| 0 <= k < members.len() && members[k] == doc.entities[i];
        assert(handles[k] == doc.entities[i].common.handle);
    }
    assert forall|h: Handle| #[trigger] handles.contains(h) implies exists|j: int|
        0 <= j < doc.entities.len() && (#[trigger] doc.entities[j]).common.handle == h && lies_on(
            doc.entities[j],
            gone,
        ) by {
        let k = choose|k: int| 0 <= k < handles.len() && handles[k] == h;
        assert(on_layer(gone)(members[k]));
        assert(doc.entities.contains(members[k]));
        let j = choose|j: int| 0 <= j < doc.entities.len() && doc.entities[j] == members[k];
        assert(doc.entities[j].common.handle == h);
    }
    assert forall|i: int|
        #![trigger doc.entities[i]]
        0 <= i < doc.entities.len() && (forall|j: int|
            0 <= j < doc.entities.len() && (#[trigger] doc.entities[j]).common.handle
                == doc.entities[i].common.handle ==> !lies_on(doc.entities[j], gone)) implies
        end.entities.contains(doc.entities[i]) by {
        assert(doc.entities.contains(doc.entities[i]));
        assert(!handles.contains(doc.entities[i].common.handle));
    }
}

/// A layer that was made current is so in the drawing, in its tab and in the ribbon,
/// under its stored name; nothing else changes and nothing can be undone for it.
pub proof fn current_layer_reads_back<S, C>(
    before: StudioView<S, C>,
    after: StudioView<S, C>,
    tab: int,
    open: bool,
    name: String,
    handle: Handle,
)
    requires
        0 <= tab < before.tabs.len(),
        operation_done(before, after, tab, open, TableOperation::LayerSetCurrent { name }, handle),
    ensures
        ({
            let doc = before.tabs[tab].scene.document;
            let end = after.tabs[tab].scene.document;
            let layer = doc.layer(trimmed(name@))->Some_0;
            &&& doc.layer(trimmed(name@)) is Some
            &&& handle == layer.handle
            &&& end.header.current_layer_name@ == layer.name@
            &&& after.tabs[tab].active_layer == layer.name@
            &&& after.tabs[tab].panel_layer == layer.name@
            &&& after.ribbon.active_layer == layer.name@
            &&& after.ribbon.active_text_style == before.ribbon.active_text_style
            &&& after.ribbon.active_dim_style == before.ribbon.active_dim_style
            &&& after.tabs[tab].dirty
            &&& after.tabs[tab].undo == before.tabs[tab].undo
            &&& after.tabs[tab].redo == before.tabs[tab].redo
            &&& end.layers == doc.layers && end.entities == doc.entities && end.objects
                == doc.objects
            &&& end.header.current_text_style_name == doc.header.current_text_style_name
            &&& end.header.current_dimstyle_name == doc.header.current_dimstyle_name
            &&& end.header.model_space_block_handle == doc.header.model_space_block_handle
            &&& only_tab(before, after, tab)
            &&& only_drawing(before.tabs[tab], after.tabs[tab])
            &&& after.events == before.events
        }),
{
}

} // verus!
