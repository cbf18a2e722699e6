//! The symbol tables stay in order: each key leads to one record, whatever a
//! plugin does to the drawing.

use crate::document::DocumentView;
use crate::entities::EntityType;
use crate::geometry::Handle;
use crate::layer_ops::{layer_deleted, layer_renamed};
use crate::layers::{
    consulted_for, layer_outcome, layers_announced, loaded, loading_keeps_the_rest,
    modify_outcome, LayerConfig,
};
use crate::records::{
    filed_apart, identified, keyed, table_key, BlockRecord, DimStyle, Layer, LineType, Record,
    TextStyle,
};
use crate::scene::{
    asked_owner, entity_added, entity_placed, entity_replaced, layer_registered, SceneView,
};
use crate::scripting::{entity_applied, removed, Scripted};
use crate::search::{pick, seek, seek_finds};
use crate::session::{recorded, with_document};
use crate::style_ops::{
    stored_name, style_handle, style_removed, style_renamed, styles_announced, TableOperation,
};
use crate::studio::{StudioView, TabView, TableStyleKind};
use crate::table_ops::{operation_done, operation_fault};
use crate::text::trimmed;
use crate::transaction::{all_applied, applied_in_steps, replacements, transacted};
use vstd::prelude::*;

verus! {

/// The record that a table files under a key.
pub open spec fn filed_under<T: Record>(records: Seq<T>, key: Seq<char>) -> Option<T> {
    pick(records, keyed::<T>(key))
}

/// A record whose key is free can join a table.
pub proof fn joining_keeps_filed<T: Record>(records: Seq<T>, record: T)
    requires
        filed_apart(records),
        filed_under(records, table_key(record.named())) is None,
    ensures
        filed_apart(records.push(record)),
{
    let key = table_key(record.named());
    seek_finds(records, 0, keyed::<T>(key));
    assert forall|i: int, j: int| 0 <= i < j < records.push(record).len() implies table_key(
        (#[trigger] records.push(record)[i]).named(),
    ) != table_key((#[trigger] records.push(record)[j]).named()) by {
        assert(!keyed::<T>(key)(records[i]));
        assert(records.push(record)[i] == records[i]);
    }
}

/// A record can take the place of another where it keeps its key or its new one
/// is free. It is then filed under its own key, no longer under the old one, and
/// the other records are filed as before.
pub proof fn replacing_keeps_filed<T: Record>(records: Seq<T>, i: int, record: T)
    requires
        filed_apart(records),
        0 <= i < records.len(),
        table_key(record.named()) == table_key(records[i].named()) || filed_under(
            records,
            table_key(record.named()),
        ) is None,
    ensures
        filed_apart(records.update(i, record)),
        filed_under(records.update(i, record), table_key(record.named())) == Some(record),
        table_key(record.named()) != table_key(records[i].named()) ==> filed_under(
            records.update(i, record),
            table_key(records[i].named()),
        ) is None,
        forall|key: Seq<char>|
            key != table_key(record.named()) && key != table_key(records[i].named())
                ==> #[trigger] filed_under(records.update(i, record), key) == filed_under(
                records,
                key,
            ),
{
    let after = records.update(i, record);
    let own = table_key(record.named());
    let former = table_key(records[i].named());
    seek_finds(records, 0, keyed::<T>(own));
    assert forall|j: int| 0 <= j < records.len() && j != i implies table_key(
        (#[trigger] records[j]).named(),
    ) != own && table_key(records[j].named()) != former by {
        assert(j < i ==> table_key(records[j].named()) != table_key(records[i].named()));
        assert(i < j ==> table_key(records[i].named()) != table_key(records[j].named()));
        if own != former {
            assert(!keyed::<T>(own)(records[j]));
        }
    }
    assert forall|a: int, b: int| 0 <= a < b < after.len() implies table_key(
        (#[trigger] after[a]).named(),
    ) != table_key((#[trigger] after[b]).named()) by {
        if a != i && b != i {
            assert(after[a] == records[a] && after[b] == records[b]);
        } else if a == i {
            assert(after[b] == records[b]);
        } else {
            assert(after[a] == records[a]);
        }
    }
    seek_finds(after, 0, keyed::<T>(own));
    assert(keyed::<T>(own)(after[i]));
    let found = seek(after, 0, keyed::<T>(own))->Some_0;
    if found != i {
        assert(after[found] == records[found]);
    }
    if own != former {
        seek_finds(after, 0, keyed::<T>(former));
        if let Some(j) = seek(after, 0, keyed::<T>(former)) {
            if j != i {
                assert(after[j] == records[j]);
            }
        }
    }
    assert forall|key: Seq<char>| key != own && key != former implies #[trigger] filed_under(
        after,
        key,
    ) == filed_under(records, key) by {
        let test = keyed::<T>(key);
        seek_finds(records, 0, test);
        seek_finds(after, 0, test);
        assert(!test(records[i]) && !test(after[i]));
        if let Some(j) = seek(records, 0, test) {
            assert(test(after[j]));
        }
        if let Some(j) = seek(after, 0, test) {
            assert(test(records[j]));
        }
    }
}

/// A record that left a table is no longer filed, and the others are as before.
pub proof fn leaving_keeps_filed<T: Record>(records: Seq<T>, i: int)
    requires
        filed_apart(records),
        0 <= i < records.len(),
    ensures
        filed_apart(records.remove(i)),
        filed_under(records.remove(i), table_key(records[i].named())) is None,
        forall|key: Seq<char>|
            key != table_key(records[i].named()) ==> #[trigger] filed_under(
                records.remove(i),
                key,
            ) == filed_under(records, key),
{
    let after = records.remove(i);
    let former = table_key(records[i].named());
    assert forall|j: int| 0 <= j < records.len() && j != i implies table_key(
        (#[trigger] records[j]).named(),
    ) != former by {
        assert(j < i ==> table_key(records[j].named()) != table_key(records[i].named()));
        assert(i < j ==> table_key(records[i].named()) != table_key(records[j].named()));
    }
    assert forall|a: int, b: int| 0 <= a < b < after.len() implies table_key(
        (#[trigger] after[a]).named(),
    ) != table_key((#[trigger] after[b]).named()) by {
        let old_a = if a < i {
            a
        } else {
            a + 1
        };
        let old_b = if b < i {
            b
        } else {
            b + 1
        };
        assert(after[a] == records[old_a] && after[b] == records[old_b]);
    }
    seek_finds(after, 0, keyed::<T>(former));
    if let Some(j) = seek(after, 0, keyed::<T>(former)) {
        let old_j = if j < i {
            j
        } else {
            j + 1
        };
        assert(after[j] == records[old_j]);
    }
    assert forall|key: Seq<char>| key != former implies #[trigger] filed_under(after, key)
        == filed_under(records, key) by {
        let test = keyed::<T>(key);
        seek_finds(records, 0, test);
        seek_finds(after, 0, test);
        assert(!test(records[i]));
        if let Some(j) = seek(records, 0, test) {
            let new_j = if j < i {
                j
            } else {
                j - 1
            };
            assert(after[new_j] == records[j]);
            assert(test(after[new_j]));
        }
        if let Some(j) = seek(after, 0, test) {
            let old_j = if j < i {
                j
            } else {
                j + 1
            };
            assert(after[j] == records[old_j]);
            assert(test(records[old_j]));
        }
    }
}

/// Tables with the same names are filed alike.
proof fn same_names_are_filed<T: Record>(before: Seq<T>, after: Seq<T>)
    requires
        filed_apart(before),
        before.len() == after.len(),
        forall|i: int| 0 <= i < before.len() ==> (#[trigger] after[i]).named() == before[i].named(),
    ensures
        filed_apart(after),
{
    assert forall|i: int, j: int| 0 <= i < j < after.len() implies table_key(
        (#[trigger] after[i]).named(),
    ) != table_key((#[trigger] after[j]).named()) by {
        assert(table_key(before[i].named()) != table_key(before[j].named()));
    }
}

/// Entering a layer that an entity names keeps the tables in order.
pub proof fn registering_keeps_filed(before: DocumentView, after: DocumentView, name: Seq<char>)
    requires
        before.filed(),
        layer_registered(before, after, name),
    ensures
        after.filed(),
{
    if after != before {
        joining_keeps_filed(before.layers, after.layers.last());
    }
}

/// Adding an entity keeps the tables in order.
pub proof fn adding_keeps_filed(before: DocumentView, after: DocumentView, entity: EntityType)
    requires
        before.filed(),
        entity_added(before, after, entity),
    ensures
        after.filed(),
{
    let middle = choose|middle: DocumentView| #[trigger]
        layer_registered(before, middle, entity.common.layer@) && entity_placed(
            middle,
            after,
            entity,
        );
    registering_keeps_filed(before, middle, entity.common.layer@);
    seek_finds(
        middle.block_records,
        0,
        identified::<BlockRecord>(asked_owner(middle, entity)),
    );
    seek_finds(middle.block_records, 0, keyed::<BlockRecord>(table_key("*Model_Space"@)));
    same_names_are_filed(middle.block_records, after.block_records);
}

/// Replacing an entity, or an attribute of one, keeps the tables in order.
pub proof fn applying_keeps_filed(before: DocumentView, after: DocumentView, entity: EntityType)
    requires
        before.filed(),
        entity_applied(before, after, entity),
    ensures
        after.filed(),
{
    let changed = choose|changed: EntityType| #[trigger] entity_replaced(before, after, changed);
    replacing_entity_keeps_filed(before, after, changed);
}

/// Replacing an entity keeps the tables in order.
proof fn replacing_entity_keeps_filed(
    before: DocumentView,
    after: DocumentView,
    changed: EntityType,
)
    requires
        before.filed(),
        entity_replaced(before, after, changed),
    ensures
        after.filed(),
{
    let middle = choose|middle: DocumentView| #[trigger]
        layer_registered(before, middle, changed.common.layer@) && after == (DocumentView {
            entities: after.entities,
            ..middle
        });
    registering_keeps_filed(before, middle, changed.common.layer@);
}

proof fn steps_keep_filed(steps: Seq<DocumentView>, entities: Seq<EntityType>, count: int)
    requires
        applied_in_steps(steps, entities),
        steps[0].filed(),
        0 <= count <= entities.len(),
    ensures
        steps[count].filed(),
    decreases count,
{
    if count > 0 {
        steps_keep_filed(steps, entities, count - 1);
        assert(entity_applied(steps[count - 1], steps[count], entities[count - 1]));
        applying_keeps_filed(steps[count - 1], steps[count], entities[count - 1]);
    }
}

/// A transaction keeps the tables in order.
pub proof fn transaction_keeps_filed<S, C>(
    before: StudioView<S, C>,
    after: StudioView<S, C>,
    tab: int,
    open: bool,
    label: Seq<char>,
    batch: Seq<Scripted>,
)
    requires
        0 <= tab < before.tabs.len(),
        before.tabs[tab].scene.document.filed(),
        transacted(before, after, tab, open, label, batch),
    ensures
        after.tabs[tab].scene.document.filed(),
{
    let doc = before.tabs[tab].scene.document;
    let ready = choose|ready: Seq<EntityType>| #[trigger]
        replacements(doc, batch, ready) && all_applied(
            before.tabs[tab].scene,
            after.tabs[tab].scene,
            ready,
        );
    let steps = choose|steps: Seq<DocumentView>|
        {
            &&& #[trigger] applied_in_steps(steps, ready)
            &&& steps[0] == doc
            &&& after.tabs[tab].scene.document == steps.last()
        };
    steps_keep_filed(steps, ready, ready.len() as int);
}

/// Loading standard linetypes keeps the tables in order.
pub proof fn loading_keeps_filed(doc: DocumentView, standard: Seq<LineType>)
    requires
        doc.filed(),
        doc.spare(standard.len() as int),
    ensures
        loaded(doc, standard).filed(),
    decreases standard.len(),
{
    if standard.len() > 0 {
        let front = standard.drop_last();
        loading_keeps_filed(doc, front);
        let before = loaded(doc, front);
        let last = standard.last();
        if before.line_type(last.name@) is None {
            joining_keeps_filed(
                before.line_types,
                LineType { handle: Handle { value: before.next_handle }, ..last },
            );
        }
    }
}

/// Adding a layer keeps the tables in order.
pub proof fn layer_outcome_keeps_filed<S, C>(
    before: StudioView<S, C>,
    after: StudioView<S, C>,
    tab: int,
    open: bool,
    config: LayerConfig,
    result: Option<Handle>,
)
    requires
        0 <= tab < before.tabs.len(),
        before.tabs[tab].scene.document.filed(),
        before.tabs[tab].scene.document.spare(before.standard_linetypes.len() as int + 1),
        layer_outcome(before, after, tab, open, config, result),
    ensures
        after.tabs[tab].scene.document.filed(),
{
    let doc = before.tabs[tab].scene.document;
    let end = after.tabs[tab].scene.document;
    loading_keeps_filed(doc, before.standard_linetypes);
    loading_keeps_the_rest(doc, before.standard_linetypes);
    assert(consulted_for(doc, before.standard_linetypes, config).filed());
    if result is Some {
        joining_keeps_filed(doc.layers, end.layers.last());
    }
}

/// Changing a layer keeps the tables in order.
pub proof fn modify_outcome_keeps_filed<S, C>(
    before: StudioView<S, C>,
    after: StudioView<S, C>,
    tab: int,
    open: bool,
    config: LayerConfig,
    result: bool,
)
    requires
        0 <= tab < before.tabs.len(),
        before.tabs[tab].scene.document.filed(),
        before.tabs[tab].scene.document.spare(before.standard_linetypes.len() as int + 1),
        modify_outcome(before, after, tab, open, config, result),
    ensures
        after.tabs[tab].scene.document.filed(),
{
    let doc = before.tabs[tab].scene.document;
    let end = after.tabs[tab].scene.document;
    let key = table_key(trimmed(config.name@));
    loading_keeps_filed(doc, before.standard_linetypes);
    loading_keeps_the_rest(doc, before.standard_linetypes);
    assert(consulted_for(doc, before.standard_linetypes, config).filed());
    seek_finds(doc.layers, 0, keyed::<Layer>(key));
    if result {
        let i = seek(doc.layers, 0, keyed::<Layer>(key))->Some_0;
        replacing_keeps_filed(doc.layers, i, end.layers[i]);
    }
}

/// Removing an entity or an attribute keeps the tables in order.
pub proof fn removal_keeps_filed<S, C>(
    before: StudioView<S, C>,
    after: StudioView<S, C>,
    tab: int,
    open: bool,
    handle: Handle,
    result: bool,
)
    requires
        0 <= tab < before.tabs.len(),
        before.tabs[tab].scene.document.filed(),
        removed(before, after, tab, open, handle, result),
    ensures
        after.tabs[tab].scene.document.filed(),
{
    let doc = before.tabs[tab].scene.document;
    let end = after.tabs[tab].scene.document;
    if doc.entity(handle) is None && result {
        let changed = choose|changed: EntityType| #[trigger] entity_replaced(doc, end, changed);
        replacing_entity_keeps_filed(doc, end, changed);
    }
}

/// A layer that was deleted is gone, and every other layer is filed as before.
pub proof fn deleted_layer_is_gone(scene: SceneView, name: Seq<char>)
    requires
        scene.document.filed(),
        scene.document.layer(name) is Some,
    ensures
        layer_deleted(scene, name).document.layer(name) is None,
        forall|other: Seq<char>|
            table_key(other) != table_key(name) ==> #[trigger] layer_deleted(
                scene,
                name,
            ).document.layer(other) == scene.document.layer(other),
        layer_deleted(scene, name).document.filed(),
{
    let layers = scene.document.layers;
    seek_finds(layers, 0, keyed::<Layer>(table_key(name)));
    let i = seek(layers, 0, keyed::<Layer>(table_key(name)))->Some_0;
    leaving_keeps_filed(layers, i);
    assert forall|other: Seq<char>| table_key(other) != table_key(name) implies
        #[trigger] layer_deleted(scene, name).document.layer(other) == scene.document.layer(other) by {
        assert(filed_under(layers.remove(i), table_key(other)) == filed_under(
            layers,
            table_key(other),
        ));
    }
    assert(filed_under(layers.remove(i), table_key(name)) is None);
}

/// A layer that was renamed is found under its new name and no longer under the
/// old one, unless they are filed alike. Every other layer is filed as before.
pub proof fn renamed_layer_is_refiled<S, C>(
    before: TabView<S, C>,
    after: TabView<S, C>,
    from: Seq<char>,
    to: Seq<char>,
)
    requires
        before.scene.document.filed(),
        layer_renamed(before, after, from, to),
        table_key(to) == table_key(from) || before.scene.document.layer(to) is None,
    ensures
        after.scene.document.layer(to) matches Some(layer) && layer.name@ == to,
        table_key(to) != table_key(from) ==> after.scene.document.layer(from) is None,
        forall|other: Seq<char>|
            table_key(other) != table_key(from) && table_key(other) != table_key(to)
                ==> #[trigger] after.scene.document.layer(other) == before.scene.document.layer(
                other,
            ),
        after.scene.document.filed(),
{
    let layers = before.scene.document.layers;
    seek_finds(layers, 0, keyed::<Layer>(table_key(from)));
    let i = seek(layers, 0, keyed::<Layer>(table_key(from)))->Some_0;
    let changed = after.scene.document.layers[i];
    replacing_keeps_filed(layers, i, changed);
    let result = layers.update(i, changed);
    assert(after.scene.document.layers == result);
    assert(filed_under(result, table_key(to)) == Some(changed));
    assert forall|other: Seq<char>|
        table_key(other) != table_key(from) && table_key(other) != table_key(to) implies
        #[trigger] after.scene.document.layer(other) == before.scene.document.layer(other) by {
        assert(filed_under(result, table_key(other)) == filed_under(layers, table_key(other)));
    }
}

/// A style that was deleted is gone, and every other one is filed as before.
pub proof fn deleted_style_is_gone(doc: DocumentView, kind: TableStyleKind, name: Seq<char>)
    requires
        doc.filed(),
        style_handle(doc, kind, name) is Some,
    ensures
        style_handle(style_removed(doc, kind, name), kind, name) is None,
        forall|other: Seq<char>|
            table_key(other) != table_key(name) ==> #[trigger] style_handle(
                style_removed(doc, kind, name),
                kind,
                other,
            ) == style_handle(doc, kind, other),
        style_removed(doc, kind, name).filed(),
{
    let key = table_key(name);
    match kind {
        TableStyleKind::Text => {
            let styles = doc.text_styles;
            seek_finds(styles, 0, keyed::<TextStyle>(key));
            let i = seek(styles, 0, keyed::<TextStyle>(key))->Some_0;
            leaving_keeps_filed(styles, i);
            assert(filed_under(styles.remove(i), key) is None);
            assert forall|other: Seq<char>| table_key(other) != key implies
                #[trigger] style_handle(style_removed(doc, kind, name), kind, other)
                == style_handle(doc, kind, other) by {
                assert(filed_under(styles.remove(i), table_key(other)) == filed_under(
                    styles,
                    table_key(other),
                ));
            }
        },
        TableStyleKind::Dim => {
            let styles = doc.dim_styles;
            seek_finds(styles, 0, keyed::<DimStyle>(key));
            let i = seek(styles, 0, keyed::<DimStyle>(key))->Some_0;
            leaving_keeps_filed(styles, i);
            assert(filed_under(styles.remove(i), key) is None);
            assert forall|other: Seq<char>| table_key(other) != key implies
                #[trigger] style_handle(style_removed(doc, kind, name), kind, other)
                == style_handle(doc, kind, other) by {
                assert(filed_under(styles.remove(i), table_key(other)) == filed_under(
                    styles,
                    table_key(other),
                ));
            }
        },
    }
}

/// A style that was renamed is found under its new name and no longer under the
/// old one.
pub proof fn renamed_style_is_refiled(
    before: DocumentView,
    after: DocumentView,
    kind: TableStyleKind,
    from: Seq<char>,
    to: Seq<char>,
)
    requires
        before.filed(),
        style_renamed(before, after, kind, from, to),
        style_handle(before, kind, to) is None,
    ensures
        style_handle(after, kind, to) == style_handle(before, kind, from),
        stored_name(after, kind, to) == to,
        style_handle(after, kind, from) is None,
        after.filed(),
{
    let key = table_key(from);
    match kind {
        TableStyleKind::Text => {
            let styles = before.text_styles;
            seek_finds(styles, 0, keyed::<TextStyle>(key));
            let i = seek(styles, 0, keyed::<TextStyle>(key))->Some_0;
            let changed = after.text_styles[i];
            assert(table_key(to) != key);
            replacing_keeps_filed(styles, i, changed);
            assert(filed_under(styles.update(i, changed), table_key(to)) == Some(changed));
            assert(filed_under(styles.update(i, changed), key) is None);
            same_names_are_filed(before.dim_styles, after.dim_styles);
        },
        TableStyleKind::Dim => {
            let styles = before.dim_styles;
            seek_finds(styles, 0, keyed::<DimStyle>(key));
            let i = seek(styles, 0, keyed::<DimStyle>(key))->Some_0;
            let changed = after.dim_styles[i];
            assert(table_key(to) != key);
            replacing_keeps_filed(styles, i, changed);
            assert(filed_under(styles.update(i, changed), table_key(to)) == Some(changed));
            assert(filed_under(styles.update(i, changed), key) is None);
        },
    }
}

/// A change to the layers keeps the tables in order.
proof fn layer_operation_keeps_filed<S, C>(
    before: StudioView<S, C>,
    after: StudioView<S, C>,
    tab: int,
    open: bool,
    operation: TableOperation,
    handle: Handle,
)
    requires
        0 <= tab < before.tabs.len(),
        before.tabs[tab].scene.document.filed(),
        before.tabs[tab].scene.document.spare(before.standard_linetypes.len() as int + 1),
        operation is LayerCreate || operation is LayerModify || operation is LayerRename
            || operation is LayerDelete,
        operation_fault(before, tab, operation) is None,
        operation_done(before, after, tab, open, operation, handle),
    ensures
        after.tabs[tab].scene.document.filed(),
{
    match operation {
        TableOperation::LayerCreate { config } => {
            let start = recorded(before, tab, "Create layer"@);
            layer_outcome_keeps_filed(start, after, tab, open, config, Some(handle));
        },
        TableOperation::LayerModify { config } => {
            let start = recorded(before, tab, "Modify layer"@);
            modify_outcome_keeps_filed(start, after, tab, open, config, true);
        },
        TableOperation::LayerRename { from, to } => {
            let start = recorded(before, tab, "Rename layer"@);
            let view = choose|view: TabView<S, C>| #[trigger]
                layer_renamed(start.tabs[tab], view, trimmed(from@), trimmed(to@)) && after
                    == layers_announced(
                    start.with_tab(tab, view),
                    tab,
                    open,
                    seq![trimmed(from@), trimmed(to@)],
                );
            renamed_layer_is_refiled(start.tabs[tab], view, trimmed(from@), trimmed(to@));
        },
        TableOperation::LayerDelete { name, .. } => {
            let start = recorded(before, tab, "Delete layer"@);
            deleted_layer_is_gone(start.tabs[tab].scene, trimmed(name@));
        },
        _ => {},
    }
}

/// A change to the styles keeps the tables in order.
proof fn style_operation_keeps_filed<S, C>(
    before: StudioView<S, C>,
    after: StudioView<S, C>,
    tab: int,
    open: bool,
    operation: TableOperation,
    handle: Handle,
)
    requires
        0 <= tab < before.tabs.len(),
        before.tabs[tab].scene.document.filed(),
        before.tabs[tab].scene.document.spare(before.standard_linetypes.len() as int + 1),
        !(operation is LayerCreate || operation is LayerModify || operation is LayerRename
            || operation is LayerDelete),
        operation_fault(before, tab, operation) is None,
        operation_done(before, after, tab, open, operation, handle),
    ensures
        after.tabs[tab].scene.document.filed(),
{
    let doc = before.tabs[tab].scene.document;
    let end = after.tabs[tab].scene.document;
    match operation {
        TableOperation::TextStyleCreate { config } => {
            joining_keeps_filed(doc.text_styles, end.text_styles.last());
        },
        TableOperation::TextStyleModify { config } => {
            let key = table_key(trimmed(config.name@));
            seek_finds(doc.text_styles, 0, keyed::<TextStyle>(key));
            let i = seek(doc.text_styles, 0, keyed::<TextStyle>(key))->Some_0;
            replacing_keeps_filed(doc.text_styles, i, end.text_styles[i]);
        },
        TableOperation::DimStyleCreate { .. } => {
            joining_keeps_filed(doc.dim_styles, end.dim_styles.last());
        },
        TableOperation::DimStyleModify { name, .. } => {
            let key = table_key(trimmed(name@));
            seek_finds(doc.dim_styles, 0, keyed::<DimStyle>(key));
            let i = seek(doc.dim_styles, 0, keyed::<DimStyle>(key))->Some_0;
            replacing_keeps_filed(doc.dim_styles, i, end.dim_styles[i]);
        },
        TableOperation::StyleRename { kind, from, to } => {
            let stored = stored_name(doc, kind, trimmed(from@));
            let changed = choose|changed: DocumentView| #[trigger]
                style_renamed(doc, changed, kind, stored, trimmed(to@)) && after
                    == styles_announced(
                    with_document(
                        recorded(before, tab, "Rename style"@),
                        tab,
                        changed,
                    ),
                    tab,
                    open,
                    kind,
                );
            renamed_style_is_refiled(doc, changed, kind, stored, trimmed(to@));
        },
        TableOperation::StyleDelete { kind, name } => {
            deleted_style_is_gone(doc, kind, trimmed(name@));
        },
        _ => {},
    }
}

/// Every change to a symbol table keeps the tables in order.
pub proof fn operation_keeps_filed<S, C>(
    before: StudioView<S, C>,
    after: StudioView<S, C>,
    tab: int,
    open: bool,
    operation: TableOperation,
    handle: Handle,
)
    requires
        0 <= tab < before.tabs.len(),
        before.tabs[tab].scene.document.filed(),
        before.tabs[tab].scene.document.spare(before.standard_linetypes.len() as int + 1),
        operation_fault(before, tab, operation) is None,
        operation_done(before, after, tab, open, operation, handle),
    ensures
        after.tabs[tab].scene.document.filed(),
{
    if operation is LayerCreate || operation is LayerModify || operation is LayerRename
        || operation is LayerDelete {
        layer_operation_keeps_filed(before, after, tab, open, operation, handle);
    } else {
        style_operation_keeps_filed(before, after, tab, open, operation, handle);
    }
}

} // verus!
