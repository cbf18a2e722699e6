//! What becomes of layers that are made, changed, renamed, deleted or made current.

use crate::document::DocumentView;
use crate::entities::Color;
use crate::geometry::Handle;
use crate::layers::{
    config_fault, consulted_for, layer_fault, layer_members, layer_outcome, linetype_available,
    linetype_fault, linetype_for, loaded, loading_keeps_the_rest, loading_supplies, modify_outcome,
    on_layer, LayerConfig,
};
use crate::naming::{forbidden, offence, symbol_fault};
use crate::plain::{text_in_plain_terms, written};
use crate::records::{keyed, table_key, Layer, LineType, LineWeight, Transparency};
use crate::search::{passing, passing_holds, seek, seek_finds};
use crate::studio::{EventView, StudioView, TabView};
use crate::style_ops::TableOperation;
use crate::table_ops::operation_fault;
use crate::text::{alike, trimmed, trimming_is_done, upper};
use vstd::prelude::*;
use vstd::string::*;

verus! {

/// The value that was given, or else the one that was there.
pub open spec fn now<T>(given: Option<T>, before: T, after: T) -> bool {
    match given {
        Some(value) => after == value,
        None => after == before,
    }
}

/// The layer has each property that the config gives, and each other one as before.
pub open spec fn reads_back(config: LayerConfig, before: Layer, after: Layer) -> bool {
    &&& now(config.off, before.off, after.off)
    &&& now(config.frozen, before.frozen, after.frozen)
    &&& now(config.locked, before.locked, after.locked)
    &&& now(config.plottable, before.is_plottable, after.is_plottable)
    &&& now(config.color, before.color, after.color)
    &&& now(config.lineweight, before.line_weight, after.line_weight)
    &&& now(config.transparency, before.transparency, after.transparency)
    &&& config.description is Some ==> after.description@ == config.description->Some_0@
    &&& config.description is None ==> after.description@ == before.description@
    &&& config.linetype is Some ==> table_key(after.line_type@) == table_key(
        config.linetype->Some_0@,
    )
    &&& config.linetype is None ==> after.line_type@ == before.line_type@
    &&& config.color is None ==> after.color_name == before.color_name && after.book_name
        == before.book_name
    &&& config.color is Some ==> after.color_name is None && after.book_name is None
    &&& after.name == before.name
    &&& after.handle == before.handle
    &&& after.record == before.record
}

/// The state goes on: only the one drawing and what was told differ.
pub open spec fn only_tab<S, C>(before: StudioView<S, C>, after: StudioView<S, C>, tab: int) -> bool {
    &&& after.tabs.len() == before.tabs.len()
    &&& forall|i: int|
        0 <= i < before.tabs.len() && i != tab ==> (#[trigger] after.tabs[i]) == before.tabs[i]
    &&& after.active_tab == before.active_tab
    &&& after.last_plugin_selection == before.last_plugin_selection
    &&& after.snap_angle_deg == before.snap_angle_deg
    &&& after.command_line == before.command_line
    &&& after.standard_linetypes == before.standard_linetypes
    &&& before.events.is_prefix_of(after.events)
}

/// The drawing of a tab and the rest of it, apart from the drawing.
pub open spec fn only_drawing<S, C>(before: TabView<S, C>, after: TabView<S, C>) -> bool {
    &&& after.id == before.id
    &&& after.current_path == before.current_path
    &&& after.plugin_state == before.plugin_state
    &&& after.active_cmd == before.active_cmd
    &&& after.scene.selection == before.scene.selection
}

/// Apart from layers and linetypes the drawing is the same.
pub open spec fn only_layers(before: DocumentView, after: DocumentView) -> bool {
    &&& after.entities == before.entities
    &&& after.objects == before.objects
    &&& after.text_styles == before.text_styles
    &&& after.dim_styles == before.dim_styles
    &&& after.block_records == before.block_records
    &&& after.app_ids == before.app_ids
    &&& after.header == before.header
}

/// The application was told: layers changed by these names, the panel is out of date,
/// and so is the shared view of the drawing.
pub open spec fn layers_told<S, C>(
    before: StudioView<S, C>,
    after: StudioView<S, C>,
    tab: int,
    open: bool,
    names: Seq<Seq<char>>,
) -> bool {
    let id = before.tabs[tab].id;
    let old_count = before.events.len() as int;
    let count = after.events.len() as int;
    let epoch = after.tabs[tab].scene.geometry_epoch;
    let news = before.last_plugin_document != Some((id, epoch));
    &&& after.tabs[tab].dirty
    &&& count == old_count + 3 + (if open {
        1int
    } else {
        0
    }) + (if news {
        1int
    } else {
        0
    })
    &&& after.events[old_count] == EventView::LayersChanged(tab as usize, names)
    &&& after.events[old_count + 1] == EventView::LayerPanelChanged
    &&& open ==> after.events[old_count + 2] == EventView::SessionViewChanged(tab as usize)
    &&& news ==> after.events[count - 2] == EventView::DrawingChanged(id, epoch)
    &&& after.events[count - 1] == EventView::ViewChanged(id)
    &&& after.last_plugin_document == Some((id, epoch))
}

proof fn linetype_is_the_asked_one(
    doc: DocumentView,
    standard: Seq<LineType>,
    config: LayerConfig,
)
    requires
        doc.spare(standard.len() as int),
    ensures
        linetype_available(doc, standard, config) == linetype_at_hand(doc, standard, config),
        linetype_available(doc, standard, config) == (linetype_for(doc, standard, config) is Some),
        linetype_fault(doc, standard, config) is None <==> linetype_at_hand(doc, standard, config),
        config.linetype is Some && linetype_for(doc, standard, config) is Some ==> table_key(
            linetype_for(doc, standard, config)->Some_0,
        ) == table_key(config.linetype->Some_0@),
        only_layers(doc, consulted_for(doc, standard, config)),
        consulted_for(doc, standard, config).layers == doc.layers,
        doc.next_handle <= consulted_for(doc, standard, config).next_handle <= doc.next_handle
            + standard.len(),
{
    loading_keeps_the_rest(doc, standard);
    if config.linetype is Some {
        let name = config.linetype->Some_0@;
        let test = keyed::<LineType>(table_key(name));
        loading_supplies(doc, standard, name);
        seek_finds(doc.line_types, 0, test);
        seek_finds(standard, 0, test);
        let ready = consulted_for(doc, standard, config);
        seek_finds(ready.line_types, 0, test);
        if linetype_at_hand(doc, standard, config) {
            if exists|i: int| 0 <= i < doc.line_types.len() && table_key(
                (#[trigger] doc.line_types[i]).name@,
            ) == table_key(name) {
                let i = choose|i: int|
                    0 <= i < doc.line_types.len() && table_key((#[trigger] doc.line_types[i]).name@)
                        == table_key(name);
                assert(test(doc.line_types[i]));
            } else {
                let i = choose|i: int|
                    0 <= i < standard.len() && table_key((#[trigger] standard[i]).name@)
                        == table_key(name);
                assert(test(standard[i]));
            }
        }
    }
}

/// The linetype that a config asks for is in the drawing or among the standard ones.
pub open spec fn linetype_at_hand(
    doc: DocumentView,
    standard: Seq<LineType>,
    config: LayerConfig,
) -> bool {
    config.linetype is Some ==> {
        let key = table_key(config.linetype->Some_0@);
        ||| exists|i: int|
            0 <= i < doc.line_types.len() && table_key((#[trigger] doc.line_types[i]).name@) == key
        ||| exists|i: int|
            0 <= i < standard.len() && table_key((#[trigger] standard[i]).name@) == key
    }
}

/// Some layer is filed under the name.
pub open spec fn layer_is_there(doc: DocumentView, name: Seq<char>) -> bool {
    exists|i: int|
        0 <= i < doc.layers.len() && table_key((#[trigger] doc.layers[i]).name@) == table_key(name)
}

/// A layer is found by its name exactly where one is filed under it, and it is the
/// first such layer.
pub proof fn layer_is_found(doc: DocumentView, name: Seq<char>)
    ensures
        doc.layer(name) is Some <==> layer_is_there(doc, name),
        doc.layer(name) is Some ==> table_key(doc.layer(name)->Some_0.name@) == table_key(name),
        doc.layer(name) is Some ==> doc.layers.contains(doc.layer(name)->Some_0),
        layer_fault(doc, name) is None <==> layer_is_there(doc, name),
{
    let test = keyed::<Layer>(table_key(name));
    seek_finds(doc.layers, 0, test);
    if layer_is_there(doc, name) {
        let i = choose|i: int|
            0 <= i < doc.layers.len() && table_key((#[trigger] doc.layers[i]).name@) == table_key(
                name,
            );
        assert(test(doc.layers[i]));
    }
    if doc.layer(name) is Some {
        let i = seek(doc.layers, 0, test)->Some_0;
        assert(test(doc.layers[i]));
        assert(table_key(doc.layers[i].name@) == table_key(name));
    }
}

/// After a layer was changed, each property that the config gives a value reads back
/// with that value, and each that it leaves out reads back as before. The change
/// succeeds exactly where the layer and its linetype are there. Every other layer and
/// the rest of the drawing stay.
pub proof fn changed_layer_reads_back<S, C>(
    before: StudioView<S, C>,
    after: StudioView<S, C>,
    tab: int,
    open: bool,
    config: LayerConfig,
    result: bool,
)
    requires
        0 <= tab < before.tabs.len(),
        before.tabs[tab].scene.document.spare(before.standard_linetypes.len() as int),
        modify_outcome(before, after, tab, open, config, result),
    ensures
        ({
            let doc = before.tabs[tab].scene.document;
            let end = after.tabs[tab].scene.document;
            let name = trimmed(config.name@);
            &&& result <==> written(config.name@) && layer_is_there(doc, name) && linetype_at_hand(
                doc,
                before.standard_linetypes,
                config,
            )
            &&& only_tab(before, after, tab)
            &&& only_drawing(before.tabs[tab], after.tabs[tab])
            &&& only_layers(doc, end)
            &&& after.tabs[tab].undo == before.tabs[tab].undo
            &&& after.tabs[tab].active_layer == before.tabs[tab].active_layer
            &&& after.ribbon == before.ribbon
            &&& end.layers.len() == doc.layers.len()
            &&& result ==> {
                &&& doc.layer(name) is Some
                &&& end.layer(name) is Some
                &&& reads_back(config, doc.layer(name)->Some_0, end.layer(name)->Some_0)
                &&& layers_told(before, after, tab, open, seq![name])
            }
            &&& forall|other: Seq<char>|
                table_key(other) != table_key(name) ==> #[trigger] end.layer(other) == doc.layer(
                    other,
                )
            &&& !result ==> end.layers == doc.layers && after.events == before.events
        }),
{
    let doc = before.tabs[tab].scene.document;
    let end = after.tabs[tab].scene.document;
    let name = trimmed(config.name@);
    let test = keyed::<Layer>(table_key(name));
    text_in_plain_terms();
    linetype_is_the_asked_one(doc, before.standard_linetypes, config);
    layer_is_found(doc, name);
    seek_finds(doc.layers, 0, test);
    if result {
        let i = seek(doc.layers, 0, test)->Some_0;
        seek_finds(end.layers, 0, test);
        assert(end.layers =~= doc.layers.update(i, end.layers[i]));
        assert(test(end.layers[i]));
        let j = seek(end.layers, 0, test)->Some_0;
        if j < i {
            assert(doc.layers[j] == end.layers[j]);
            assert(test(doc.layers[j]));
        }
        assert(j == i);
        assert forall|other: Seq<char>| table_key(other) != table_key(name) implies
            #[trigger] end.layer(other) == doc.layer(other) by {
            let there = keyed::<Layer>(table_key(other));
            seek_finds(doc.layers, 0, there);
            seek_finds(end.layers, 0, there);
            if seek(doc.layers, 0, there) is Some {
                let k = seek(doc.layers, 0, there)->Some_0;
                assert(k != i);
                assert(there(end.layers[k]));
            }
            if seek(end.layers, 0, there) is Some {
                let k = seek(end.layers, 0, there)->Some_0;
                assert(there(end.layers[k]));
                assert(k != i);
                assert(there(doc.layers[k]));
            }
        }
    }
}

/// The value that was given, or else the usual one.
pub open spec fn asked<T>(given: Option<T>, usual: T, found: T) -> bool {
    match given {
        Some(value) => found == value,
        None => found == usual,
    }
}

/// After a layer was made, it reads back with each property that the config gives:
/// otherwise it is on, thawed, unlocked, plotted, opaque as its surroundings, white and
/// continuous. It is made exactly where the name is written and free and the linetype
/// is there. The other layers and the rest of the drawing stay.
pub proof fn made_layer_reads_back<S, C>(
    before: StudioView<S, C>,
    after: StudioView<S, C>,
    tab: int,
    open: bool,
    config: LayerConfig,
    result: Option<Handle>,
)
    requires
        0 <= tab < before.tabs.len(),
        before.tabs[tab].scene.document.spare(before.standard_linetypes.len() as int + 1),
        layer_outcome(before, after, tab, open, config, result),
    ensures
        ({
            let doc = before.tabs[tab].scene.document;
            let end = after.tabs[tab].scene.document;
            let name = trimmed(config.name@);
            &&& result is Some <==> written(config.name@) && !layer_is_there(doc, name)
                && linetype_at_hand(doc, before.standard_linetypes, config)
            &&& only_tab(before, after, tab)
            &&& only_drawing(before.tabs[tab], after.tabs[tab])
            &&& only_layers(doc, end)
            &&& after.tabs[tab].undo == before.tabs[tab].undo
            &&& after.tabs[tab].active_layer == before.tabs[tab].active_layer
            &&& after.ribbon == before.ribbon
            &&& result is Some ==> {
                let layer = end.layer(name)->Some_0;
                &&& end.layer(name) is Some
                &&& end.layers == doc.layers.push(layer)
                &&& layer.name@ == name
                &&& layer.handle == result->Some_0
                &&& doc.next_handle <= layer.handle.value < end.next_handle
                &&& asked(config.off, false, layer.off)
                &&& asked(config.frozen, false, layer.frozen)
                &&& asked(config.locked, false, layer.locked)
                &&& asked(config.plottable, true, layer.is_plottable)
                &&& asked(config.color, Color::Index(7), layer.color)
                &&& asked(config.lineweight, LineWeight::ByLayer, layer.line_weight)
                &&& asked(config.transparency, Transparency::ByLayer, layer.transparency)
                &&& config.description is Some ==> layer.description@
                    == config.description->Some_0@
                &&& config.description is None ==> layer.description@.len() == 0
                &&& config.linetype is Some ==> table_key(layer.line_type@) == table_key(
                    config.linetype->Some_0@,
                )
                &&& config.linetype is None ==> layer.line_type@ == "Continuous"@
                &&& layer.color_name is None && layer.book_name is None
                &&& layers_told(before, after, tab, open, seq![name])
            }
            &&& forall|other: Seq<char>|
                table_key(other) != table_key(name) ==> #[trigger] end.layer(other) == doc.layer(
                    other,
                )
            &&& result is None ==> end.layers == doc.layers && after.events == before.events
        }),
{
    let doc = before.tabs[tab].scene.document;
    let end = after.tabs[tab].scene.document;
    let name = trimmed(config.name@);
    let test = keyed::<Layer>(table_key(name));
    text_in_plain_terms();
    linetype_is_the_asked_one(doc, before.standard_linetypes, config);
    layer_is_found(doc, name);
    reveal_strlit("");
    if result is Some {
        let last = doc.layers.len() as int;
        seek_finds(doc.layers, 0, test);
        seek_finds(end.layers, 0, test);
        assert(test(end.layers[last]));
        let j = seek(end.layers, 0, test)->Some_0;
        if j < last {
            assert(test(doc.layers[j]));
        }
        assert(j == last);
        assert forall|other: Seq<char>| table_key(other) != table_key(name) implies
            #[trigger] end.layer(other) == doc.layer(other) by {
            let there = keyed::<Layer>(table_key(other));
            seek_finds(doc.layers, 0, there);
            seek_finds(end.layers, 0, there);
            if seek(doc.layers, 0, there) is Some {
                let k = seek(doc.layers, 0, there)->Some_0;
                assert(there(end.layers[k]));
            }
            if seek(end.layers, 0, there) is Some {
                let k = seek(end.layers, 0, there)->Some_0;
                assert(there(end.layers[k]));
                assert(k != last);
                assert(there(doc.layers[k]));
            }
        }
    }
}

/// A character that no name of a table may have, by its number.
pub open spec fn barred(c: char) -> bool {
    let n = c as u32;
    n < 32 || n == 34 || n == 42 || n == 47 || n == 58 || n == 59 || n == 60 || n == 61 || n == 62
        || n == 63 || n == 92 || n == 96 || n == 124 || (127 <= n && n < 160)
}

/// A name for a table: from one to 255 characters without the white space around, and
/// none of them barred.
pub open spec fn fit_name(raw: Seq<char>) -> bool {
    &&& 1 <= trimmed(raw).len() <= 255
    &&& forall|i: int| 0 <= i < trimmed(raw).len() ==> !barred(#[trigger] trimmed(raw)[i])
}

proof fn barred_is_forbidden(c: char)
    ensures
        barred(c) == forbidden(c),
{
    assert('<' as u32 == 60 && '>' as u32 == 62 && '/' as u32 == 47 && '\\' as u32 == 92);
    assert('"' as u32 == 34 && ':' as u32 == 58 && ';' as u32 == 59 && '?' as u32 == 63);
    assert('*' as u32 == 42 && '|' as u32 == 124 && '=' as u32 == 61 && '`' as u32 == 96);
}

/// The names that symbol tables accept.
pub proof fn fit_names_are_accepted(raw: Seq<char>, what: Seq<char>)
    ensures
        symbol_fault(raw, what) is None <==> fit_name(raw),
{
    let name = trimmed(raw);
    let test = |c: char| forbidden(c);
    seek_finds(name, 0, test);
    assert forall|c: char| #[trigger] barred(c) == forbidden(c) by {
        barred_is_forbidden(c);
    }
    if offence(name) is Some {
        let i = seek(name, 0, test)->Some_0;
        assert(test(name[i]));
        assert(barred(name[i]));
    } else {
        assert forall|i: int| 0 <= i < name.len() implies !barred(#[trigger] name[i]) by {
            assert(!test(name[i]));
        }
    }
}

/// A layer can have what the config asks for: an indexed color but the one of blocks,
/// or a mixed one, and a lineweight of at most 2.11 mm.
pub open spec fn fit_config(config: LayerConfig) -> bool {
    &&& config.color is Some ==> (config.color->Some_0 is Rgb || (config.color->Some_0 is Index
        && 1 <= config.color->Some_0->Index_0 <= 255))
    &&& config.lineweight is Some && config.lineweight->Some_0 is Value ==> 0
        <= config.lineweight->Some_0->Value_0 <= 211
}

proof fn fit_configs_are_accepted(config: LayerConfig)
    ensures
        config_fault(config) is None <==> fit_config(config),
{
}

/// The layer is made exactly where its name is fit and free, its properties are fit
/// and its linetype is there.
pub proof fn layer_can_be_made<S, C>(state: StudioView<S, C>, tab: int, config: LayerConfig)
    requires
        state.tabs[tab].scene.document.spare(state.standard_linetypes.len() as int),
    ensures
        operation_fault(state, tab, TableOperation::LayerCreate { config }) is None <==> {
            let doc = state.tabs[tab].scene.document;
            &&& fit_name(config.name@)
            &&& !layer_is_there(doc, trimmed(config.name@))
            &&& fit_config(config)
            &&& linetype_at_hand(doc, state.standard_linetypes, config)
        },
{
    let doc = state.tabs[tab].scene.document;
    fit_names_are_accepted(config.name@, "a layer name"@);
    fit_configs_are_accepted(config);
    layer_is_found(doc, trimmed(config.name@));
    linetype_is_the_asked_one(doc, state.standard_linetypes, config);
}

/// Two names are the same but for white space around them and the case of letters.
pub open spec fn one_name(a: Seq<char>, b: Seq<char>) -> bool {
    upper(trimmed(a)) == upper(trimmed(b))
}

/// The layer is changed exactly where it is there, the config asks for something that
/// is fit, its linetype is there, and the current layer is not to be frozen.
pub proof fn layer_can_be_changed<S, C>(state: StudioView<S, C>, tab: int, config: LayerConfig)
    requires
        state.tabs[tab].scene.document.spare(state.standard_linetypes.len() as int),
    ensures
        operation_fault(state, tab, TableOperation::LayerModify { config }) is None <==> {
            let doc = state.tabs[tab].scene.document;
            &&& written(config.name@)
            &&& layer_is_there(doc, trimmed(config.name@))
            &&& config.color is Some || config.linetype is Some || config.lineweight is Some
                || config.off is Some || config.frozen is Some || config.locked is Some
                || config.plottable is Some || config.transparency is Some
                || config.description is Some
            &&& fit_config(config)
            &&& linetype_at_hand(doc, state.standard_linetypes, config)
            &&& config.frozen == Some(true) ==> !one_name(
                doc.header.current_layer_name@,
                config.name@,
            )
        },
{
    let doc = state.tabs[tab].scene.document;
    fit_configs_are_accepted(config);
    layer_is_found(doc, trimmed(config.name@));
    linetype_is_the_asked_one(doc, state.standard_linetypes, config);
    text_in_plain_terms();
    trimming_is_done(config.name@);
    trimming_is_done(trimmed(config.name@));
}

/// A layer that every drawing needs.
pub open spec fn needed_layer(name: Seq<char>) -> bool {
    trimmed(name) == "0"@ || alike(trimmed(name), "DEFPOINTS"@)
}

proof fn needed_layers_are_protected(name: Seq<char>)
    ensures
        crate::layers::protected(name) == needed_layer(name),
{
    reveal_strlit("Defpoints");
    reveal_strlit("DEFPOINTS");
    let a = "Defpoints"@;
    let b = "DEFPOINTS"@;
    let word = trimmed(name);
    assert forall|i: int| 0 <= i < 9 implies crate::text::ascii_lower(#[trigger] a[i])
        == crate::text::ascii_lower(b[i]) by {
        if i == 0 {
        } else if i == 1 {
        } else if i == 2 {
        } else if i == 3 {
        } else if i == 4 {
        } else if i == 5 {
        } else if i == 6 {
        } else if i == 7 {
        } else {
        }
    }
    if alike(word, a) {
        assert forall|i: int| 0 <= i < word.len() implies crate::text::ascii_lower(
            #[trigger] word[i],
        ) == crate::text::ascii_lower(b[i]) by {
            assert(crate::text::ascii_lower(word[i]) == crate::text::ascii_lower(a[i]));
        }
    }
    if alike(word, b) {
        assert forall|i: int| 0 <= i < word.len() implies crate::text::ascii_lower(
            #[trigger] word[i],
        ) == crate::text::ascii_lower(a[i]) by {
            assert(crate::text::ascii_lower(word[i]) == crate::text::ascii_lower(b[i]));
            assert(crate::text::ascii_lower(a[i]) == crate::text::ascii_lower(b[i]));
        }
    }
}

/// A layer is renamed exactly where it is there and not a needed one, and the new name
/// is fit, another one, and free or the layer's own.
pub proof fn layer_can_be_renamed<S, C>(state: StudioView<S, C>, tab: int, from: String, to: String)
    ensures
        operation_fault(state, tab, TableOperation::LayerRename { from, to }) is None <==> {
            let doc = state.tabs[tab].scene.document;
            &&& layer_is_there(doc, trimmed(from@))
            &&& !needed_layer(from@)
            &&& fit_name(to@)
            &&& trimmed(from@) != trimmed(to@)
            &&& layer_is_there(doc, trimmed(to@)) ==> one_name(from@, to@) && table_key(
                trimmed(from@),
            ) == table_key(trimmed(to@))
        },
{
    let doc = state.tabs[tab].scene.document;
    layer_is_found(doc, trimmed(from@));
    layer_is_found(doc, trimmed(to@));
    needed_layers_are_protected(from@);
    fit_names_are_accepted(to@, "a layer name"@);
    trimming_is_done(to@);
}

/// An entity of the drawing is on the layer.
pub open spec fn in_use(doc: DocumentView, name: Seq<char>) -> bool {
    exists|i: int|
        0 <= i < doc.entities.len() && upper((#[trigger] doc.entities[i]).common.layer@) == upper(
            name,
        )
}

proof fn members_are_on_the_layer(doc: DocumentView, name: Seq<char>)
    ensures
        layer_members(doc.entities, name).len() == 0 <==> !in_use(doc, name),
        forall|handle: Handle|
            layer_members(doc.entities, name).contains(handle) <==> exists|i: int|
                0 <= i < doc.entities.len() && upper(
                    (#[trigger] doc.entities[i]).common.layer@,
                ) == upper(name) && doc.entities[i].common.handle == handle,
{
    let test = on_layer(name);
    let members = passing(doc.entities, test);
    let handles = layer_members(doc.entities, name);
    passing_holds(doc.entities, test);
    if in_use(doc, name) {
        let i = choose|i: int|
            0 <= i < doc.entities.len() && upper((#[trigger] doc.entities[i]).common.layer@)
                == upper(name);
        assert(test(doc.entities[i]));
        assert(doc.entities.contains(doc.entities[i]));
        assert(members.contains(doc.entities[i]));
    }
    if members.len() > 0 {
        assert(members.contains(members[0]));
        let i = choose|i: int| 0 <= i < doc.entities.len() && doc.entities[i] == members[0];
        assert(test(members[0]));
        assert(upper(doc.entities[i].common.layer@) == upper(name));
    }
    assert forall|handle: Handle|
        handles.contains(handle) <==> exists|i: int|
            0 <= i < doc.entities.len() && upper((#[trigger] doc.entities[i]).common.layer@)
                == upper(name) && doc.entities[i].common.handle == handle by {
        if handles.contains(handle) {
            let k = choose|k: int| 0 <= k < handles.len() && handles[k] == handle;
            assert(members.contains(members[k]));
            assert(test(members[k]));
            let i = choose|i: int| 0 <= i < doc.entities.len() && doc.entities[i] == members[k];
            assert(upper(doc.entities[i].common.layer@) == upper(name));
        }
        if exists|i: int|
            0 <= i < doc.entities.len() && upper((#[trigger] doc.entities[i]).common.layer@)
                == upper(name) && doc.entities[i].common.handle == handle {
            let i = choose|i: int|
                0 <= i < doc.entities.len() && upper((#[trigger] doc.entities[i]).common.layer@)
                    == upper(name) && doc.entities[i].common.handle == handle;
            assert(test(doc.entities[i]));
            assert(doc.entities.contains(doc.entities[i]));
            assert(members.contains(doc.entities[i]));
            let k = choose|k: int| 0 <= k < members.len() && members[k] == doc.entities[i];
            assert(handles[k] == handle);
        }
    }
}

/// A layer is deleted exactly where it is there, neither a needed one nor the current
/// one nor one of another drawing, and no entity is on it or those on it may go.
pub proof fn layer_can_be_deleted<S, C>(
    state: StudioView<S, C>,
    tab: int,
    name: String,
    erase_objects: bool,
)
    ensures
        operation_fault(state, tab, TableOperation::LayerDelete { name, erase_objects }) is None
            <==> {
            let doc = state.tabs[tab].scene.document;
            &&& layer_is_there(doc, trimmed(name@))
            &&& !needed_layer(name@)
            &&& !one_name(doc.header.current_layer_name@, name@)
            &&& forall|i: int| 0 <= i < trimmed(name@).len() ==> (#[trigger] trimmed(name@)[i])
                != '|'
            &&& in_use(doc, trimmed(name@)) ==> erase_objects
        },
{
    let doc = state.tabs[tab].scene.document;
    layer_is_found(doc, trimmed(name@));
    needed_layers_are_protected(trimmed(name@));
    trimming_is_done(name@);
    members_are_on_the_layer(doc, trimmed(name@));
}

/// A layer is made current exactly where it is there.
pub proof fn layer_can_be_current<S, C>(state: StudioView<S, C>, tab: int, name: String)
    ensures
        operation_fault(state, tab, TableOperation::LayerSetCurrent { name }) is None
            <==> layer_is_there(state.tabs[tab].scene.document, trimmed(name@)),
{
    layer_is_found(state.tabs[tab].scene.document, trimmed(name@));
}

/// The linetype is a standard one, but for its handle.
pub open spec fn taken_from(standard: Seq<LineType>, linetype: LineType) -> bool {
    exists|k: int|
        0 <= k < standard.len() && linetype == (LineType {
            handle: linetype.handle,
            ..#[trigger] standard[k]
        })
}

/// Loading the standard linetypes keeps those that are there and appends the others,
/// each as it is but under a new handle. Afterwards every standard one is there, and no
/// name is filed twice for it.
pub proof fn linetypes_are_loaded(doc: DocumentView, standard: Seq<LineType>)
    requires
        doc.spare(standard.len() as int),
    ensures
        ({
            let after = loaded(doc, standard);
            let count = doc.line_types.len() as int;
            &&& count <= after.line_types.len()
            &&& after.next_handle == doc.next_handle + (after.line_types.len() - count)
            &&& forall|i: int|
                0 <= i < count ==> (#[trigger] after.line_types[i]) == doc.line_types[i]
            &&& forall|i: int|
                #![trigger after.line_types[i]]
                count <= i < after.line_types.len() ==> after.line_types[i].handle.value
                    == doc.next_handle + (i - count) && taken_from(
                    standard,
                    after.line_types[i],
                ) && doc.line_type(after.line_types[i].name@) is None
            &&& forall|k: int|
                0 <= k < standard.len() ==> after.line_type((#[trigger] standard[k]).name@) is Some
            &&& only_layers(doc, after)
            &&& after.layers == doc.layers
        }),
    decreases standard.len(),
{
    let after = loaded(doc, standard);
    let count = doc.line_types.len() as int;
    loading_keeps_the_rest(doc, standard);
    if standard.len() > 0 {
        let front = standard.drop_last();
        let last = standard.last();
        let before = loaded(doc, front);
        linetypes_are_loaded(doc, front);
        loading_keeps_the_rest(doc, front);
        let test = keyed::<LineType>(table_key(last.name@));
        seek_finds(before.line_types, 0, test);
        seek_finds(doc.line_types, 0, test);
        if before.line_type(last.name@) is None {
            let place = before.line_types.len() as int;
            assert(after.line_types[place].name == last.name);
            assert(standard[standard.len() - 1] == last);
            assert(taken_from(standard, after.line_types[place]));
            if seek(doc.line_types, 0, test) is Some {
                let k = seek(doc.line_types, 0, test)->Some_0;
                assert(test(doc.line_types[k]));
                assert(before.line_types[k] == doc.line_types[k]);
                assert(test(before.line_types[k]));
            }
            assert(doc.line_type(last.name@) is None);
        }
        assert forall|i: int|
            #![trigger after.line_types[i]]
            count <= i < after.line_types.len() implies after.line_types[i].handle.value
            == doc.next_handle + (i - count) && taken_from(standard, after.line_types[i])
            && doc.line_type(after.line_types[i].name@) is None by {
            if i < before.line_types.len() {
                assert(after.line_types[i] == before.line_types[i]);
                let k = choose|k: int|
                    0 <= k < front.len() && before.line_types[i] == (LineType {
                        handle: before.line_types[i].handle,
                        ..#[trigger] front[k]
                    });
                assert(standard[k] == front[k]);
            }
        }
        assert forall|k: int| 0 <= k < standard.len() implies after.line_type(
            (#[trigger] standard[k]).name@,
        ) is Some by {
            loading_supplies(doc, standard, standard[k].name@);
            seek_finds(standard, 0, keyed::<LineType>(table_key(standard[k].name@)));
            assert(keyed::<LineType>(table_key(standard[k].name@))(standard[k]));
        }
    }
}

} // verus!
