//! What the application tells of a change, what can be undone, selected and set.

use crate::document::DocumentView;
use crate::geometry::Handle;
use crate::layer_laws::only_tab;
use crate::plain::all_checks_pass;
use crate::plugin_state::{state_of, with_state};
use crate::scripting::announced;
use crate::search::{pick, seek, seek_finds};
use crate::session::{
    complained, dirtied, entity_at, informed, let_go, path_of, printed, published, recorded,
    selected, selection_checks, setting, setting_fault, shown, tab_with, taken_over, SettingView,
};
use crate::studio::{
    redone, redone_times, undone, undone_times, EventView, Level, PluginState, StudioView, TabView,
};
use crate::text::{alike, ascii_lower, earliest};
use vstd::prelude::*;
use vstd::string::*;

verus! {

/// The shared view of the drawing was told to be out of date, and so was the one that
/// the session has, if any. The drawing was told to have changed, unless plugins know
/// its geometry already.
pub open spec fn view_told<S, C>(
    before: StudioView<S, C>,
    after: StudioView<S, C>,
    tab: int,
    open: bool,
) -> bool {
    let id = after.tabs[tab].id;
    let epoch = after.tabs[tab].scene.geometry_epoch;
    let news = before.last_plugin_document != Some((id, epoch));
    let count = before.events.len() as int;
    let total = after.events.len() as int;
    &&& total == count + 1 + (if open {
        1int
    } else {
        0
    }) + (if news {
        1int
    } else {
        0
    })
    &&& before.events.is_prefix_of(after.events)
    &&& open ==> after.events[count] == EventView::SessionViewChanged(tab as usize)
    &&& news ==> after.events[total - 2] == EventView::DrawingChanged(id, epoch)
    &&& after.events[total - 1] == EventView::ViewChanged(id)
    &&& after.last_plugin_document == Some((id, epoch))
}

/// Publishing tells of a change and changes nothing else. A second time, the drawing is
/// no news.
pub proof fn publishing_tells<S, C>(state: StudioView<S, C>, tab: int, open: bool)
    requires
        0 <= tab < state.tabs.len(),
    ensures
        view_told(state, published(state, tab, open), tab, open),
        published(state, tab, open).tabs == state.tabs,
        only_tab(state, published(state, tab, open), tab),
        published(state, tab, open).ribbon == state.ribbon,
        published(published(state, tab, open), tab, open).events.len() == published(
            state,
            tab,
            open,
        ).events.len() + (if open {
            2int
        } else {
            1
        }),
{
}

/// A changed drawing takes the place of the old one in its tab. Its geometry counts as
/// changed, and the application is told. Nothing else changes, nor is the history
/// touched.
pub proof fn announcing_replaces_the_drawing<S, C>(
    before: StudioView<S, C>,
    tab: int,
    open: bool,
    document: DocumentView,
)
    requires
        0 <= tab < before.tabs.len(),
    ensures
        ({
            let after = announced(before, tab, open, document);
            let epoch = before.tabs[tab].scene.geometry_epoch;
            &&& after.tabs[tab].scene.document == document
            &&& after.tabs[tab].scene.selection == before.tabs[tab].scene.selection
            &&& epoch < u64::MAX ==> after.tabs[tab].scene.geometry_epoch == epoch + 1
            &&& epoch == u64::MAX ==> after.tabs[tab].scene.geometry_epoch == 0
            &&& after.tabs[tab].undo == before.tabs[tab].undo
            &&& after.tabs[tab].redo == before.tabs[tab].redo
            &&& after.tabs[tab].dirty == before.tabs[tab].dirty
            &&& after.tabs[tab].id == before.tabs[tab].id
            &&& after.tabs[tab].active_layer == before.tabs[tab].active_layer
            &&& only_tab(before, after, tab)
            &&& after.ribbon == before.ribbon
            &&& view_told(before, after, tab, open)
        }),
{
}

/// Recording keeps the drawing under its label, to be undone next, and forgets what was
/// to be redone. Nothing else changes.
pub proof fn recording_keeps_the_drawing<S, C>(state: StudioView<S, C>, tab: int, label: Seq<char>)
    requires
        0 <= tab < state.tabs.len(),
    ensures
        ({
            let after = recorded(state, tab, label);
            let undo = after.tabs[tab].undo;
            &&& undo.len() == state.tabs[tab].undo.len() + 1
            &&& undo.last().label == label
            &&& undo.last().document == state.tabs[tab].scene.document
            &&& forall|i: int|
                0 <= i < state.tabs[tab].undo.len() ==> (#[trigger] undo[i])
                    == state.tabs[tab].undo[i]
            &&& after.tabs[tab].redo.len() == 0
            &&& after.tabs[tab].scene == state.tabs[tab].scene
            &&& after.tabs[tab].dirty == state.tabs[tab].dirty
            &&& undone(after.tabs[tab]).scene.document == state.tabs[tab].scene.document
            &&& only_tab(state, after, tab)
            &&& after.events == state.events
        }),
{
}

/// A drawing that is marked as changed is so, and nothing else of it changes.
pub proof fn marking_marks<S, C>(state: StudioView<S, C>, tab: int)
    requires
        0 <= tab < state.tabs.len(),
    ensures
        dirtied(state, tab).tabs[tab].dirty,
        dirtied(state, tab).tabs[tab].scene == state.tabs[tab].scene,
        dirtied(state, tab).tabs[tab].undo == state.tabs[tab].undo,
        dirtied(state, tab).tabs[tab].redo == state.tabs[tab].redo,
        only_tab(state, dirtied(state, tab), tab),
        dirtied(state, tab).events == state.events,
{
}

/// Undoing takes the latest of the recorded drawings back, under its label what it
/// replaces can be redone, and the geometry counts as changed. Without a record it does
/// nothing.
pub proof fn undoing_goes_back<S, C>(tab: TabView<S, C>)
    ensures
        tab.undo.len() == 0 ==> undone(tab) == tab,
        tab.undo.len() > 0 ==> {
            let after = undone(tab);
            &&& after.scene.document == tab.undo.last().document
            &&& after.scene.selection == tab.scene.selection
            &&& after.scene.geometry_epoch != tab.scene.geometry_epoch
            &&& after.undo.len() == tab.undo.len() - 1
            &&& after.redo.len() == tab.redo.len() + 1
            &&& after.redo.last().document == tab.scene.document
            &&& after.redo.last().label == tab.undo.last().label
            &&& after.dirty
            &&& after.id == tab.id
            &&& after.active_layer == tab.active_layer
            &&& after.plugin_state == tab.plugin_state
            &&& redone(after).scene.document == tab.scene.document
            &&& redone(after).undo.len() == tab.undo.len()
        },
        tab.redo.len() == 0 ==> redone(tab) == tab,
        tab.redo.len() > 0 ==> {
            let after = redone(tab);
            &&& after.scene.document == tab.redo.last().document
            &&& after.scene.selection == tab.scene.selection
            &&& after.scene.geometry_epoch != tab.scene.geometry_epoch
            &&& after.redo.len() == tab.redo.len() - 1
            &&& after.undo.len() == tab.undo.len() + 1
            &&& after.undo.last().document == tab.scene.document
            &&& after.undo.last().label == tab.redo.last().label
            &&& after.dirty
            &&& after.id == tab.id
            &&& after.active_layer == tab.active_layer
            &&& after.plugin_state == tab.plugin_state
            &&& undone(after).scene.document == tab.scene.document
            &&& undone(after).redo.len() == tab.redo.len()
        },
{
}

/// Undoing several changes takes the drawing of as many records back, or of all that
/// there are.
pub proof fn undoing_steps_goes_back<S, C>(tab: TabView<S, C>, steps: nat)
    ensures
        undone_times(tab, 0) == tab,
        undone_times(tab, 1) == undone(tab),
        tab.undo.len() == 0 ==> undone_times(tab, steps) == tab,
        steps > 0 && steps <= tab.undo.len() ==> undone_times(tab, steps).scene.document
            == tab.undo[tab.undo.len() - steps].document,
        steps <= tab.undo.len() ==> undone_times(tab, steps).undo.len() == tab.undo.len() - steps,
        steps >= tab.undo.len() ==> undone_times(tab, steps).undo.len() == 0,
        steps > tab.undo.len() > 0 ==> undone_times(tab, steps).scene.document
            == tab.undo[0].document,
    decreases steps,
{
    reveal_with_fuel(undone_times, 2);
    if steps > 0 {
        undoing_steps_goes_back(undone(tab), (steps - 1) as nat);
        if tab.undo.len() > 0 {
            let rest = undone(tab).undo;
            assert(forall|i: int| 0 <= i < rest.len() ==> rest[i] == tab.undo[i]);
        } else {
            assert(undone(tab) == tab);
        }
    }
}

/// Redoing several changes takes the drawing of as many records back, or of all that
/// there are.
pub proof fn redoing_steps_goes_on<S, C>(tab: TabView<S, C>, steps: nat)
    ensures
        redone_times(tab, 0) == tab,
        redone_times(tab, 1) == redone(tab),
        tab.redo.len() == 0 ==> redone_times(tab, steps) == tab,
        steps > 0 && steps <= tab.redo.len() ==> redone_times(tab, steps).scene.document
            == tab.redo[tab.redo.len() - steps].document,
        steps <= tab.redo.len() ==> redone_times(tab, steps).redo.len() == tab.redo.len() - steps,
        steps >= tab.redo.len() ==> redone_times(tab, steps).redo.len() == 0,
        steps > tab.redo.len() > 0 ==> redone_times(tab, steps).scene.document
            == tab.redo[0].document,
    decreases steps,
{
    reveal_with_fuel(redone_times, 2);
    if steps > 0 {
        redoing_steps_goes_on(redone(tab), (steps - 1) as nat);
        if tab.redo.len() > 0 {
            let rest = redone(tab).redo;
            assert(forall|i: int| 0 <= i < rest.len() ==> rest[i] == tab.redo[i]);
        } else {
            assert(redone(tab) == tab);
        }
    }
}

/// A selection is accepted exactly where each handle leads to an entity and none comes
/// twice.
pub proof fn selection_is_accepted(doc: DocumentView, handles: Seq<Handle>)
    ensures
        earliest(0, handles.len() as int, selection_checks(doc, handles)) is None <==> {
            &&& forall|i: int| 0 <= i < handles.len() ==> doc.entity(#[trigger] handles[i]) is Some
            &&& forall|i: int, j: int|
                0 <= i < j < handles.len() ==> (#[trigger] handles[i]).value != (
                #[trigger] handles[j]).value
        },
{
    let checks = selection_checks(doc, handles);
    all_checks_pass(0, handles.len() as int, checks);
    assert forall|i: int| 0 <= i < handles.len() implies (#[trigger] checks(i) is None) == (
    doc.entity(handles[i]) is Some && !crate::session::selected_earlier(handles, i)) by {}
    if earliest(0, handles.len() as int, checks) is None {
        assert forall|i: int| 0 <= i < handles.len() implies doc.entity(
            #[trigger] handles[i],
        ) is Some by {
            assert(checks(i) is None);
        }
        assert forall|i: int, j: int| 0 <= i < j < handles.len() implies (
        #[trigger] handles[i]).value != (#[trigger] handles[j]).value by {
            assert(checks(j) is None);
            assert(!crate::session::selected_earlier(handles, j));
            if handles[i].value == handles[j].value {
                assert(handles[i] == handles[j]);
            }
        }
    }
    if (forall|i: int| 0 <= i < handles.len() ==> doc.entity(#[trigger] handles[i]) is Some) && (
    forall|i: int, j: int|
        0 <= i < j < handles.len() ==> (#[trigger] handles[i]).value != (
        #[trigger] handles[j]).value) {
        assert forall|i: int| 0 <= i < handles.len() implies #[trigger] checks(i) is None by {
            if crate::session::selected_earlier(handles, i) {
                let j = choose|j: int| 0 <= j < i && #[trigger] handles[j] == handles[i];
                assert(handles[j].value != handles[i].value);
            }
        }
    }
}

/// What was selected is the selection. The application is told, unless it was so
/// before, and in the active tab plugins know.
pub proof fn selection_reads_back<S, C>(before: StudioView<S, C>, tab: int, handles: Seq<Handle>)
    requires
        0 <= tab < before.tabs.len(),
    ensures
        ({
            let after = selected(before, tab, handles);
            let id = before.tabs[tab].id;
            &&& after.tabs[tab].scene.selection == handles
            &&& after.tabs[tab].scene.document == before.tabs[tab].scene.document
            &&& after.tabs[tab].scene.geometry_epoch == before.tabs[tab].scene.geometry_epoch
            &&& after.tabs[tab].dirty == before.tabs[tab].dirty
            &&& after.tabs[tab].undo == before.tabs[tab].undo
            &&& after.tabs.len() == before.tabs.len()
            &&& forall|i: int|
                0 <= i < before.tabs.len() && i != tab ==> (#[trigger] after.tabs[i])
                    == before.tabs[i]
            &&& before.tabs[tab].scene.selection == handles ==> after == before
            &&& before.tabs[tab].scene.selection != handles ==> {
                &&& after.events.len() == before.events.len() + 1
                &&& before.events.is_prefix_of(after.events)
                &&& after.events.last() == EventView::SelectionChanged(id, handles)
                &&& before.active_tab == tab ==> after.last_plugin_selection == Some((id, handles))
                &&& before.active_tab != tab ==> after.last_plugin_selection
                    == before.last_plugin_selection
            }
            &&& after.last_plugin_document == before.last_plugin_document
            &&& after.command_line == before.command_line
            &&& after.ribbon == before.ribbon
        }),
{
}

/// The text is the name of a setting: the same letters, whatever their case.
pub open spec fn calls(name: Seq<char>, letters: Seq<u32>) -> bool {
    name.len() == letters.len() && forall|i: int|
        0 <= i < name.len() ==> (#[trigger] name[i]) as u32 == letters[i] || name[i] as u32
            == letters[i] + 32
}

/// The name of the current layer as a setting.
pub open spec fn current_layer_setting(name: Seq<char>) -> bool {
    calls(name, seq![67u32, 76, 65, 89, 69, 82])
}

/// The name of the snap angle as a setting.
pub open spec fn snap_angle_setting(name: Seq<char>) -> bool {
    calls(name, seq![83u32, 78, 65, 80, 65, 78, 71])
}

proof fn settings_are_called(name: Seq<char>)
    ensures
        alike(name, "CLAYER"@) == current_layer_setting(name),
        alike(name, "SNAPANG"@) == snap_angle_setting(name),
        !(current_layer_setting(name) && snap_angle_setting(name)),
{
    reveal_strlit("CLAYER");
    reveal_strlit("SNAPANG");
    let layer = seq![67u32, 76, 65, 89, 69, 82];
    let angle = seq![83u32, 78, 65, 80, 65, 78, 71];
    let a = "CLAYER"@;
    let b = "SNAPANG"@;
    assert forall|i: int| 0 <= i < 6 implies (#[trigger] a[i]) as u32 == layer[i] && 65 <= layer[i]
        <= 90 by {
        if i == 0 {
        } else if i == 1 {
        } else if i == 2 {
        } else if i == 3 {
        } else if i == 4 {
        } else {
        }
    }
    assert forall|i: int| 0 <= i < 7 implies (#[trigger] b[i]) as u32 == angle[i] && 65 <= angle[i]
        <= 90 by {
        if i == 0 {
        } else if i == 1 {
        } else if i == 2 {
        } else if i == 3 {
        } else if i == 4 {
        } else if i == 5 {
        } else {
        }
    }
    letters_are_alike(name, a, layer);
    letters_are_alike(name, b, angle);
}

proof fn letters_are_alike(name: Seq<char>, word: Seq<char>, letters: Seq<u32>)
    requires
        word.len() == letters.len(),
        forall|i: int|
            0 <= i < word.len() ==> (#[trigger] word[i]) as u32 == letters[i] && 65 <= letters[i]
                <= 90,
    ensures
        alike(name, word) == calls(name, letters),
{
    if alike(name, word) {
        assert forall|i: int| 0 <= i < name.len() implies (#[trigger] name[i]) as u32 == letters[i]
            || name[i] as u32 == letters[i] + 32 by {
            assert(ascii_lower(name[i]) == ascii_lower(word[i]));
        }
    }
    if calls(name, letters) {
        assert forall|i: int| 0 <= i < name.len() implies ascii_lower(#[trigger] name[i])
            == ascii_lower(word[i]) by {
            assert(word[i] as u32 == letters[i]);
        }
    }
}

/// There are two settings: the current layer of the drawing, which is text, and the
/// snap angle, which is a number.
pub proof fn settings_are_read<S, C>(state: StudioView<S, C>, tab: int, name: Seq<char>)
    ensures
        current_layer_setting(name) ==> setting(state, tab, name) == Some(
            SettingView::Text(state.tabs[tab].scene.document.header.current_layer_name@),
        ),
        snap_angle_setting(name) ==> setting(state, tab, name) == Some(
            SettingView::Number(state.snap_angle_deg, Some(state.snap_angle_deg)),
        ),
        !current_layer_setting(name) && !snap_angle_setting(name) ==> setting(
            state,
            tab,
            name,
        ) is None,
{
    settings_are_called(name);
}

/// The current layer can be set to the name of a layer that is there, and the snap
/// angle to a number within a turn. No other setting can be changed.
pub proof fn settings_can_be_changed(doc: DocumentView, name: Seq<char>, value: SettingView)
    ensures
        setting_fault(doc, name, value) is None <==> {
            ||| current_layer_setting(name) && value is Text && doc.layer(value->Text_0) is Some
            ||| snap_angle_setting(name) && value is Number && value->Number_1 is Some
        },
{
    settings_are_called(name);
}

/// A line in the command window comes last, under its level, and changes nothing else.
pub proof fn lines_come_last<S, C>(state: StudioView<S, C>, level: Level, text: Seq<char>)
    ensures
        shown(state, level, text).command_line.len() == state.command_line.len() + 1,
        shown(state, level, text).command_line.last() == (level, text),
        state.command_line.is_prefix_of(shown(state, level, text).command_line),
        shown(state, level, text).tabs == state.tabs,
        shown(state, level, text).events == state.events,
{
}

/// The path of a drawing is that of the first tab with the id, and there is none
/// without such a tab.
pub proof fn path_is_that_of_the_tab<S, C>(state: StudioView<S, C>, id: u64, tab: int)
    ensures
        0 <= tab < state.tabs.len() && state.tabs[tab].id == id && (forall|j: int|
            0 <= j < tab ==> (#[trigger] state.tabs[j]).id != id) ==> path_of(state, id)
            == state.tabs[tab].current_path,
        (forall|j: int| 0 <= j < state.tabs.len() ==> (#[trigger] state.tabs[j]).id != id)
            ==> path_of(state, id) is None,
{
    let test = tab_with::<S, C>(id);
    seek_finds(state.tabs, 0, test);
    if seek(state.tabs, 0, test) is Some {
        let k = seek(state.tabs, 0, test)->Some_0;
        assert(test(state.tabs[k]));
        if 0 <= tab < state.tabs.len() && state.tabs[tab].id == id && tab < k {
            assert(!test(state.tabs[tab]));
        }
    } else if 0 <= tab < state.tabs.len() && state.tabs[tab].id == id {
        assert(test(state.tabs[tab]));
    }
}

/// A reader goes through all the entities of a drawing, in order, and ends behind the
/// last one.
pub proof fn readers_see_every_entity(doc: DocumentView, index: int)
    requires
        0 <= index,
    ensures
        entity_at(doc, index) is Some <==> index < doc.entities.len(),
        index < doc.entities.len() ==> {
            let (handle, kind) = entity_at(doc, index)->Some_0;
            handle == doc.entities[index].common.handle && kind == doc.entities[index].data.kind()
        },
{
}

/// Messages, output and errors come last in the command window, each under its own
/// level.
pub proof fn levels_are_kept_apart<S, C>(state: StudioView<S, C>, text: Seq<char>)
    ensures
        informed(state, text).command_line == state.command_line.push((Level::Info, text)),
        printed(state, text).command_line == state.command_line.push((Level::Output, text)),
        complained(state, text).command_line == state.command_line.push((Level::Error, text)),
        informed(state, text).tabs == state.tabs,
        printed(state, text).tabs == state.tabs,
        complained(state, text).tabs == state.tabs,
        informed(state, text).events == state.events,
        printed(state, text).events == state.events,
        complained(state, text).events == state.events,
{
}

/// A command that takes over a drawing waits for input there; nothing else changes.
pub proof fn command_takes_over<S, C>(state: StudioView<S, C>, tab: int, command: C)
    requires
        0 <= tab < state.tabs.len(),
    ensures
        taken_over(state, tab, command).tabs[tab].active_cmd == Some(command),
        taken_over(state, tab, command).tabs[tab].scene == state.tabs[tab].scene,
        taken_over(state, tab, command).tabs[tab].undo == state.tabs[tab].undo,
        only_tab(state, taken_over(state, tab, command), tab),
        taken_over(state, tab, command).events == state.events,
{
}

/// A shared view is let go exactly where it is the one of the tab.
pub proof fn view_is_let_go<S, C>(state: StudioView<S, C>, tab: int, id: u64)
    ensures
        state.tabs[tab].id != id ==> let_go(state, tab, id) == state,
        state.tabs[tab].id == id ==> {
            &&& let_go(state, tab, id).events.len() == state.events.len() + 1
            &&& let_go(state, tab, id).events.last() == EventView::ViewClosed(id)
            &&& state.events.is_prefix_of(let_go(state, tab, id).events)
        },
        let_go(state, tab, id).tabs == state.tabs,
        let_go(state, tab, id).last_plugin_document == state.last_plugin_document,
{
}

/// What a plugin keeps with a drawing is found by exactly its id, and the first counts.
/// Keeping something else there changes neither the other states nor the drawing.
pub proof fn plugin_state_is_found<S, C>(
    state: StudioView<S, C>,
    tab: int,
    id: Seq<char>,
    i: int,
    kept: PluginState<S>,
)
    requires
        0 <= tab < state.tabs.len(),
    ensures
        ({
            let states = state.tabs[tab].plugin_state;
            &&& pick(states, state_of::<S>(id)) is Some <==> exists|k: int|
                0 <= k < states.len() && (#[trigger] states[k]).plugin_id@ == id
            &&& 0 <= i < states.len() && states[i].plugin_id@ == id && (forall|k: int|
                0 <= k < i ==> (#[trigger] states[k]).plugin_id@ != id) ==> pick(
                states,
                state_of::<S>(id),
            ) == Some(states[i])
        }),
        0 <= i < state.tabs[tab].plugin_state.len() ==> {
            let after = with_state(state, tab, i, kept);
            let states = state.tabs[tab].plugin_state;
            &&& after.tabs[tab].plugin_state.len() == states.len()
            &&& after.tabs[tab].plugin_state[i] == kept
            &&& forall|k: int|
                0 <= k < states.len() && k != i ==> (#[trigger] after.tabs[tab].plugin_state[k])
                    == states[k]
            &&& after.tabs[tab].scene == state.tabs[tab].scene
            &&& after.tabs[tab].undo == state.tabs[tab].undo
            &&& after.tabs[tab].dirty == state.tabs[tab].dirty
            &&& only_tab(state, after, tab)
        },
{
    let states = state.tabs[tab].plugin_state;
    let test = state_of::<S>(id);
    seek_finds(states, 0, test);
    if exists|k: int| 0 <= k < states.len() && (#[trigger] states[k]).plugin_id@ == id {
        let k = choose|k: int| 0 <= k < states.len() && (#[trigger] states[k]).plugin_id@ == id;
        assert(test(states[k]));
    }
    if seek(states, 0, test) is Some {
        let k = seek(states, 0, test)->Some_0;
        assert(test(states[k]));
        if 0 <= i < states.len() && states[i].plugin_id@ == id {
            if i < k {
                assert(!test(states[i]));
            }
        }
    }
}

} // verus!
