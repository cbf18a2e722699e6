//! The one door for changes to the symbol tables.

use crate::document::DocumentView;
use crate::geometry::Handle;
use crate::layer_ops::{layer_deleted, layer_renamed};
use crate::layers::{
    create_fault, delete_fault, layer_fault, layer_outcome, layers_announced, modify_fault,
    modify_outcome, rename_fault,
};
use crate::records::{DimStyle, TextStyle};
use crate::session::{recorded, with_document, HostSession};
use crate::style_ops::{
    dim_create_fault, dim_modified, dim_modify_fault, dim_style_created, source_text,
    stored_name, style_delete_fault, style_fault, style_handle, style_made_current,
    style_removed, style_rename_fault, style_renamed, styles_announced, text_create_fault,
    text_modified, text_modify_fault, text_style_created, TableOperation,
};
use crate::studio::{
    layer_made_current, redone, undo_and_redo_are_inverse, undone, StudioView, TabView,
    TableStyleKind,
};
use crate::text::{check, fault, first, trimmed, unless, Fault};
use vstd::prelude::*;
use vstd::string::*;

verus! {

/// The operation is on styles.
pub open spec fn on_styles(operation: TableOperation) -> bool {
    !(operation is LayerCreate || operation is LayerModify || operation is LayerRename
        || operation is LayerDelete || operation is LayerSetCurrent)
}

/// Why an operation on styles is refused.
pub open spec fn style_operation_fault<S, C>(
    state: StudioView<S, C>,
    tab: int,
    operation: TableOperation,
) -> Fault {
    let doc = state.tabs[tab].scene.document;
    first(
        unless(
            tab == state.active_tab,
            "style operations act on the active document; switch to it first"@,
        ),
        match operation {
            TableOperation::TextStyleCreate { config } => text_create_fault(doc, config),
            TableOperation::TextStyleModify { config } => text_modify_fault(doc, config),
            TableOperation::DimStyleCreate { name, copy_from, properties } => dim_create_fault(
                doc,
                name@,
                source_text(copy_from),
                properties@,
            ),
            TableOperation::DimStyleModify { name, properties } => dim_modify_fault(
                doc,
                name@,
                properties@,
            ),
            TableOperation::StyleRename { kind, from, to } => style_rename_fault(
                doc,
                kind,
                from@,
                to@,
            ),
            TableOperation::StyleDelete { kind, name } => style_delete_fault(doc, kind, name@),
            TableOperation::StyleSetCurrent { kind, name } => style_fault(
                doc,
                kind,
                trimmed(name@),
            ),
            _ => Some("unsupported table operation"@),
        },
    )
}

/// Why an operation is refused.
pub open spec fn operation_fault<S, C>(
    state: StudioView<S, C>,
    tab: int,
    operation: TableOperation,
) -> Fault {
    let doc = state.tabs[tab].scene.document;
    match operation {
        TableOperation::LayerCreate { config } => create_fault(
            doc,
            state.standard_linetypes,
            config,
        ),
        TableOperation::LayerModify { config } => modify_fault(
            doc,
            state.standard_linetypes,
            config,
        ),
        TableOperation::LayerRename { from, to } => rename_fault(doc, from@, to@),
        TableOperation::LayerDelete { name, erase_objects } => delete_fault(
            doc,
            name@,
            erase_objects,
        ),
        TableOperation::LayerSetCurrent { name } => layer_fault(doc, trimmed(name@)),
        _ => style_operation_fault(state, tab, operation),
    }
}

/// What an operation on a layer comes to.
pub open spec fn layer_operation_done<S, C>(
    before: StudioView<S, C>,
    after: StudioView<S, C>,
    tab: int,
    open: bool,
    operation: TableOperation,
    handle: Handle,
) -> bool {
    let doc = before.tabs[tab].scene.document;
    match operation {
        TableOperation::LayerCreate { config } => layer_outcome(
            recorded(before, tab, "Create layer"@),
            after,
            tab,
            open,
            config,
            Some(handle),
        ),
        TableOperation::LayerModify { config } => {
            &&& doc.layer(trimmed(config.name@)) matches Some(layer) && layer.handle == handle
            &&& modify_outcome(
                recorded(before, tab, "Modify layer"@),
                after,
                tab,
                open,
                config,
                true,
            )
        },
        TableOperation::LayerRename { from, to } => {
            let start = recorded(before, tab, "Rename layer"@);
            &&& doc.layer(trimmed(from@)) matches Some(layer) && layer.handle == handle
            &&& exists|view: TabView<S, C>| #[trigger]
                layer_renamed(start.tabs[tab], view, trimmed(from@), trimmed(to@)) && after
                    == layers_announced(
                    start.with_tab(tab, view),
                    tab,
                    open,
                    seq![trimmed(from@), trimmed(to@)],
                )
        },
        TableOperation::LayerDelete { name, .. } => {
            let start = recorded(before, tab, "Delete layer"@);
            &&& doc.layer(trimmed(name@)) matches Some(layer) && layer.handle == handle
            &&& after == layers_announced(
                start.with_tab(
                    tab,
                    TabView {
                        scene: layer_deleted(start.tabs[tab].scene, trimmed(name@)),
                        ..start.tabs[tab]
                    },
                ),
                tab,
                open,
                seq![trimmed(name@)],
            )
        },
        TableOperation::LayerSetCurrent { name } => doc.layer(trimmed(name@)) matches Some(layer)
            && layer.handle == handle && layer_made_current(before, after, tab, layer.name@),
        _ => false,
    }
}

/// What an operation on styles comes to.
pub open spec fn style_operation_done<S, C>(
    before: StudioView<S, C>,
    after: StudioView<S, C>,
    tab: int,
    open: bool,
    operation: TableOperation,
    handle: Handle,
) -> bool {
    let doc = before.tabs[tab].scene.document;
    match operation {
        TableOperation::TextStyleCreate { config } => {
            &&& handle.value == doc.next_handle
            &&& exists|style: TextStyle| #[trigger]
                text_style_created(style, handle, trimmed(config.name@), config) && after
                    == styles_announced(
                    with_document(
                        recorded(before, tab, "Create text style"@),
                        tab,
                        DocumentView {
                            next_handle: (doc.next_handle + 1) as u64,
                            text_styles: doc.text_styles.push(style),
                            ..doc
                        },
                    ),
                    tab,
                    open,
                    TableStyleKind::Text,
                )
        },
        TableOperation::TextStyleModify { config } => {
            &&& Some(handle) == style_handle(doc, TableStyleKind::Text, trimmed(config.name@))
            &&& text_modified(before, after, tab, open, config)
        },
        TableOperation::DimStyleCreate { name, copy_from, properties } => {
            &&& handle.value == doc.next_handle
            &&& exists|style: DimStyle| #[trigger]
                dim_style_created(
                    doc,
                    style,
                    handle,
                    name@,
                    source_text(copy_from),
                    properties@,
                ) && after == styles_announced(
                    with_document(
                        recorded(before, tab, "Create dimension style"@),
                        tab,
                        DocumentView {
                            next_handle: (doc.next_handle + 1) as u64,
                            dim_styles: doc.dim_styles.push(style),
                            ..doc
                        },
                    ),
                    tab,
                    open,
                    TableStyleKind::Dim,
                )
        },
        TableOperation::DimStyleModify { name, properties } => {
            &&& Some(handle) == style_handle(doc, TableStyleKind::Dim, trimmed(name@))
            &&& dim_modified(before, after, tab, open, name@, properties@)
        },
        TableOperation::StyleRename { kind, from, to } => {
            &&& Some(handle) == style_handle(doc, kind, trimmed(from@))
            &&& exists|changed: DocumentView| #[trigger]
                style_renamed(
                    doc,
                    changed,
                    kind,
                    stored_name(doc, kind, trimmed(from@)),
                    trimmed(to@),
                ) && after == styles_announced(
                    with_document(recorded(before, tab, "Rename style"@), tab, changed),
                    tab,
                    open,
                    kind,
                )
        },
        TableOperation::StyleDelete { kind, name } => {
            &&& Some(handle) == style_handle(doc, kind, trimmed(name@))
            &&& after == styles_announced(
                with_document(
                    recorded(before, tab, "Delete style"@),
                    tab,
                    style_removed(doc, kind, trimmed(name@)),
                ),
                tab,
                open,
                kind,
            )
        },
        TableOperation::StyleSetCurrent { kind, name } => {
            &&& Some(handle) == style_handle(doc, kind, trimmed(name@))
            &&& style_made_current(
                before,
                after,
                tab,
                kind,
                stored_name(doc, kind, trimmed(name@)),
                handle,
            )
        },
        _ => false,
    }
}

/// What an operation that is not refused comes to.
pub open spec fn operation_done<S, C>(
    before: StudioView<S, C>,
    after: StudioView<S, C>,
    tab: int,
    open: bool,
    operation: TableOperation,
    handle: Handle,
) -> bool {
    if on_styles(operation) {
        style_operation_done(before, after, tab, open, operation, handle)
    } else {
        layer_operation_done(before, after, tab, open, operation, handle)
    }
}

impl<'a, S, C> HostSession<'a, S, C> {
    /// Changes text and dimension styles. They belong to the active drawing: the
    /// ribbon shows its current styles.
    fn style_operation(&mut self, operation: TableOperation) -> (result: Result<Handle, String>)
        requires
            old(self).valid(),
            old(self).doc().spare(1),
        ensures
            fault(result) == style_operation_fault(
                old(self).state(),
                old(self).tab as int,
                operation,
            ),
            result is Err ==> final(self).state() == old(self).state(),
            result matches Ok(handle) ==> style_operation_done(
                old(self).state(),
                final(self).state(),
                old(self).tab as int,
                old(self).doc_store is Some,
                operation,
                handle,
            ),
            final(self).continues(*old(self)),
            final(self).valid(),
            *final(final(self).app) == *final(old(self).app),
    {
        check(
            self.tab == self.app.active_tab,
            "style operations act on the active document; switch to it first",
        )?;
        match operation {
            TableOperation::TextStyleCreate { config } => self.create_text_style(config),
            TableOperation::TextStyleModify { config } => self.change_text_style(config),
            TableOperation::DimStyleCreate { name, copy_from, properties } => self.create_dim_style(
                &name,
                &copy_from,
                &properties,
            ),
            TableOperation::DimStyleModify { name, properties } => self.change_dim_style(
                &name,
                &properties,
            ),
            TableOperation::StyleRename { kind, from, to } => self.rename_style(kind, &from, &to),
            TableOperation::StyleDelete { kind, name } => self.delete_style(kind, &name),
            TableOperation::StyleSetCurrent { kind, name } => self.make_style_current(kind, &name),
            _ => Err("unsupported table operation".to_owned()),
        }
    }

    /// Changes a symbol table. The result is the handle of the record concerned.
    /// Every refusal comes before anything is recorded, so that a refused
    /// operation leaves the drawing and its history untouched.
    pub fn table_operation(&mut self, operation: TableOperation) -> (result: Result<Handle, String>)
        requires
            old(self).valid(),
            old(self).doc().spare(old(self).state().standard_linetypes.len() as int + 1),
        ensures
            fault(result) == operation_fault(
                old(self).state(),
                old(self).tab as int,
                operation,
            ),
            result is Err ==> final(self).state() == old(self).state(),
            result matches Ok(handle) ==> operation_done(
                old(self).state(),
                final(self).state(),
                old(self).tab as int,
                old(self).doc_store is Some,
                operation,
                handle,
            ),
            final(self).continues(*old(self)),
            final(self).valid(),
            *final(final(self).app) == *final(old(self).app),
    {
        match operation {
            TableOperation::LayerCreate { config } => self.create_layer(config),
            TableOperation::LayerModify { config } => self.change_layer(config),
            TableOperation::LayerRename { from, to } => self.rename_layer(&from, &to),
            TableOperation::LayerDelete { name, erase_objects } => self.delete_layer(
                &name,
                erase_objects,
            ),
            TableOperation::LayerSetCurrent { name } => self.make_layer_current(&name),
            other => self.style_operation(other),
        }
    }
}

/// The operation is recorded, so that it can be undone. Making something current
/// is not.
pub open spec fn recordable(operation: TableOperation) -> bool {
    !(operation is LayerSetCurrent || operation is StyleSetCurrent)
}

/// An operation that changes the tables is undone in one step. One that finds a
/// style as it is asked for changes nothing.
pub proof fn operation_undoes_in_one_step<S, C>(
    before: StudioView<S, C>,
    after: StudioView<S, C>,
    tab: int,
    open: bool,
    operation: TableOperation,
    handle: Handle,
)
    requires
        0 <= tab < before.tabs.len(),
        operation_done(before, after, tab, open, operation, handle),
        recordable(operation),
    ensures
        after == before || {
            &&& after.tabs[tab].undo.len() == before.tabs[tab].undo.len() + 1
            &&& undone(after.tabs[tab]).scene.document == before.tabs[tab].scene.document
            &&& undone(after.tabs[tab]).undo == before.tabs[tab].undo
            &&& redone(undone(after.tabs[tab])).scene.document == after.tabs[tab].scene.document
        },
{
    if after != before {
        let label = after.tabs[tab].undo.last().label;
        undo_and_redo_are_inverse(before.tabs[tab], after.tabs[tab], after.tabs[tab], label);
    }
}

} // verus!
