//! What is left behind of an operation beside its result: what can be undone, what the
//! application is told, and why an operation was refused.

use crate::document::DocumentView;
use crate::geometry::Handle;
use crate::layer_change_laws::remembered;
use crate::layer_laws::{layer_is_found, layer_is_there, only_tab};
use crate::layers::LayerConfig;
use crate::scripting::{removed, Scripted};
use crate::session::{recorded, selection_checks};
use crate::session_laws::view_told;
use crate::solids::{operation_label, solid_done, KernelReply, SolidOperation};
use crate::studio::StudioView;
use crate::style_ops::TableOperation;
use crate::table_ops::operation_fault;
use crate::text::{quoted, trimmed};
use crate::transaction::{epoch_after, member_checks, transacted, transaction_fault};
use vstd::prelude::*;
use vstd::string::*;

verus! {

/// Each change counts the epoch up by one.
pub proof fn epochs_count_the_changes(epoch: u64, changes: nat)
    ensures
        epoch + changes <= u64::MAX ==> epoch_after(epoch, changes) == epoch + changes,
    decreases changes,
{
    if changes > 0 {
        epochs_count_the_changes(epoch, (changes - 1) as nat);
    }
}

/// A batch of edits leaves the drawing marked as changed, the one before it under the
/// label of the batch, and each edit counted as a change of the geometry. The
/// application is told once, and nothing else changes.
pub proof fn batch_is_remembered<S, C>(
    before: StudioView<S, C>,
    after: StudioView<S, C>,
    tab: int,
    open: bool,
    label: Seq<char>,
    batch: Seq<Scripted>,
)
    requires
        0 <= tab < before.tabs.len(),
        transacted(before, after, tab, open, label, batch),
    ensures
        remembered(before, after, tab, label),
        after.tabs[tab].dirty,
        view_told(before, after, tab, open),
        only_tab(before, after, tab),
        after.ribbon == before.ribbon,
        after.tabs[tab].scene.selection == before.tabs[tab].scene.selection,
        after.tabs[tab].active_layer == before.tabs[tab].active_layer,
        after.tabs[tab].plugin_state == before.tabs[tab].plugin_state,
        before.tabs[tab].scene.geometry_epoch + batch.len() <= u64::MAX
            ==> after.tabs[tab].scene.geometry_epoch == before.tabs[tab].scene.geometry_epoch
            + batch.len(),
{
    epochs_count_the_changes(before.tabs[tab].scene.geometry_epoch, batch.len());
    assert(after.tabs[tab].undo.drop_last() =~= before.tabs[tab].undo);
}

/// An operation on solids leaves the drawing before it under the label of the
/// operation.
pub proof fn solid_operation_is_remembered<S, C>(
    before: StudioView<S, C>,
    after: StudioView<S, C>,
    tab: int,
    open: bool,
    operation: SolidOperation,
    reply: KernelReply,
    handle: Handle,
)
    requires
        0 <= tab < before.tabs.len(),
        solid_done(before, after, tab, open, operation, reply, handle),
    ensures
        operation is Create ==> remembered(before, after, tab, "Create solid"@),
        operation is RegionFromProfile ==> remembered(before, after, tab, "Create region"@),
        operation is SurfaceFromProfile ==> remembered(before, after, tab, "Create surface"@),
        operation is Extrude ==> remembered(before, after, tab, "Extrude profile"@),
        operation is EmbedPicture ==> remembered(before, after, tab, "Embed picture"@),
        operation is Boolean ==> remembered(before, after, tab, "Boolean solids"@),
        operation is Transform ==> remembered(before, after, tab, "Transform solid"@),
        only_tab(before, after, tab),
        after.tabs[tab].dirty == before.tabs[tab].dirty,
{
    let start = recorded(before, tab, operation_label(operation));
    assert(start.tabs[tab].undo.drop_last() =~= before.tabs[tab].undo);
}

/// The application is told where an entity or an attribute was removed, and only there.
pub proof fn removal_is_told<S, C>(
    before: StudioView<S, C>,
    after: StudioView<S, C>,
    tab: int,
    open: bool,
    handle: Handle,
    result: bool,
)
    requires
        0 <= tab < before.tabs.len(),
        removed(before, after, tab, open, handle, result),
    ensures
        result ==> view_told(before, after, tab, open),
        !result ==> after.events == before.events,
        only_tab(before, after, tab),
        after.tabs[tab].undo == before.tabs[tab].undo,
        after.tabs[tab].redo == before.tabs[tab].redo,
        after.tabs[tab].dirty == before.tabs[tab].dirty,
        result ==> after.tabs[tab].scene.geometry_epoch != before.tabs[tab].scene.geometry_epoch,
{
}

/// What a refused operation on layers is answered where the layer is the reason.
pub proof fn layer_refusals_say_why<S, C>(
    state: StudioView<S, C>,
    tab: int,
    config: LayerConfig,
    name: String,
    to: String,
    erase_objects: bool,
)
    ensures
        ({
            let doc = state.tabs[tab].scene.document;
            let missing = Some("layer "@ + quoted(trimmed(name@)) + " does not exist"@);
            !layer_is_there(doc, trimmed(name@)) ==> {
                &&& operation_fault(state, tab, TableOperation::LayerRename { from: name, to })
                    == missing
                &&& operation_fault(
                    state,
                    tab,
                    TableOperation::LayerDelete { name, erase_objects },
                ) == missing
                &&& operation_fault(state, tab, TableOperation::LayerSetCurrent { name })
                    == missing
            }
        }),
        ({
            let doc = state.tabs[tab].scene.document;
            let asked = trimmed(config.name@);
            &&& !layer_is_there(doc, asked) ==> operation_fault(
                state,
                tab,
                TableOperation::LayerModify { config },
            ) == Some("layer "@ + quoted(asked) + " does not exist"@)
            &&& layer_is_there(doc, asked) && crate::layer_laws::fit_name(config.name@)
                ==> operation_fault(state, tab, TableOperation::LayerCreate { config }) == Some(
                "layer "@ + quoted(asked) + " already exists"@,
            )
            &&& asked.len() == 0 ==> operation_fault(
                state,
                tab,
                TableOperation::LayerCreate { config },
            ) == Some("a layer name cannot be empty"@)
        }),
{
    let doc = state.tabs[tab].scene.document;
    layer_is_found(doc, trimmed(name@));
    layer_is_found(doc, trimmed(config.name@));
    crate::layer_laws::fit_names_are_accepted(config.name@, "a layer name"@);
    reveal_strlit("a layer name");
    reveal_strlit(" cannot be empty");
    reveal_strlit("a layer name cannot be empty");
    assert("a layer name"@ + " cannot be empty"@ =~= "a layer name cannot be empty"@);
}

/// What a refused batch is answered: an empty label comes first, and then the first
/// edit that cannot be made, by the handle of its entity.
pub proof fn batch_refusals_say_why(
    doc: DocumentView,
    label: Seq<char>,
    batch: Seq<Scripted>,
)
    ensures
        !crate::plain::written(label) ==> transaction_fault(doc, label, batch) == Some(
            "transaction label is empty"@,
        ),
        ({
            let entity = batch[0].entity;
            let handle = entity.common.handle;
            let stored = crate::attributes::model_entity(doc, handle);
            crate::plain::written(label) && batch.len() > 0 ==> {
                &&& handle.value == 0 ==> transaction_fault(doc, label, batch) == Some(
                    "null or duplicate entity handle: "@ + handle.shown(),
                )
                &&& handle.value != 0 && stored is None ==> transaction_fault(doc, label, batch)
                    == Some("entity "@ + handle.shown() + " does not exist"@)
                &&& handle.value != 0 && stored is Some && stored->Some_0.data.kind()
                    != entity.data.kind() ==> transaction_fault(doc, label, batch) == Some(
                    "entity "@ + handle.shown() + " changes kind"@,
                )
                &&& handle.value != 0 && stored is Some && stored->Some_0.data.kind()
                    == entity.data.kind() && stored->Some_0.common.owner_handle
                    != entity.common.owner_handle ==> transaction_fault(doc, label, batch) == Some(
                    "entity "@ + handle.shown() + " changes owner"@,
                )
            }
        }),
{
    crate::plain::text_in_plain_terms();
    let checks = member_checks(doc, batch);
    if batch.len() > 0 {
        assert(crate::text::earliest(0, batch.len() as int, checks) == crate::text::first(
            checks(0),
            crate::text::earliest(1, batch.len() as int, checks),
        ));
        assert(!crate::transaction::comes_earlier(batch, 0));
    }
}

/// What a refused selection is answered where its first handle is the reason.
pub proof fn selection_refusals_say_why(doc: DocumentView, handles: Seq<Handle>)
    requires
        handles.len() > 0,
        doc.entity(handles[0]) is None,
    ensures
        crate::text::earliest(0, handles.len() as int, selection_checks(doc, handles)) == Some(
            "entity "@ + handles[0].shown() + " does not exist"@,
        ),
{
    let checks = selection_checks(doc, handles);
    assert(!crate::session::selected_earlier(handles, 0));
    assert(checks(0) is Some);
}

} // verus!
