//! What plugins keep with a drawing, and direct access to the drawing.

use crate::document::CadDocument;
use crate::search::{item, pick, place, seek, seek_finds};
use crate::session::{with_document, HostSession};
use crate::studio::{PluginState, StudioView, TabView};
use crate::text::is_same;
use vstd::prelude::*;
use vstd::string::*;

verus! {

/// The state belongs to the plugin.
pub open spec fn state_of<S>(plugin_id: Seq<char>) -> spec_fn(PluginState<S>) -> bool {
    |kept: PluginState<S>| kept.plugin_id@ == plugin_id
}

/// The place of the state of a plugin.
fn find_state<S>(states: &Vec<PluginState<S>>, plugin_id: &str) -> (result: Option<usize>)
    ensures
        place(result) == seek(states@, 0, state_of::<S>(plugin_id@)),
        result matches Some(i) ==> i < states.len(),
{
    let mut i: usize = 0;
    while i < states.len()
        invariant
            i <= states.len(),
            seek(states@, 0, state_of::<S>(plugin_id@)) == seek(
                states@,
                i as int,
                state_of::<S>(plugin_id@),
            ),
        decreases states.len() - i,
    {
        if is_same(&states[i].plugin_id, plugin_id) {
            return Some(i);
        }
        i = i + 1;
    }
    None
}

impl<'a, S, C> HostSession<'a, S, C> {
    /// The drawing, to change at will.
    pub fn document_mut(&mut self) -> (result: &mut CadDocument)
        requires
            old(self).valid(),
        ensures
            result@ == old(self).doc(),
            final(self).state() == with_document(
                old(self).state(),
                old(self).tab as int,
                final(result)@,
            ),
            final(self).continues(*old(self)),
            *final(final(self).app) == *final(old(self).app),
    {
        let tab: usize = self.tab;
        &mut self.app.tabs[tab].scene.document
    }

    /// What a plugin keeps with the drawing.
    pub fn plugin_state_any(&self, plugin_id: &str) -> (result: Option<&S>)
        requires
            self.valid(),
        ensures
            item(result) == (match pick(
                self.tab_view().plugin_state,
                state_of::<S>(plugin_id@),
            ) {
                Some(kept) => Some(kept.state),
                None => None,
            }),
    {
        let states = &self.app.tabs[self.tab].plugin_state;
        match find_state(states, plugin_id) {
            Some(i) => Some(&states[i].state),
            None => None,
        }
    }

    /// What a plugin keeps with the drawing, to change at will.
    pub fn plugin_state_any_mut(&mut self, plugin_id: &str) -> (result: Option<&mut S>)
        requires
            old(self).valid(),
        ensures
            match (
                result,
                seek(old(self).tab_view().plugin_state, 0, state_of::<S>(plugin_id@)),
            ) {
                (Some(state), Some(i)) => {
                    let kept = old(self).tab_view().plugin_state[i];
                    &&& *state == kept.state
                    &&& final(self).state() == with_state(
                        old(self).state(),
                        old(self).tab as int,
                        i,
                        PluginState { state: *final(state), ..kept },
                    )
                },
                (None, None) => final(self).state() == old(self).state(),
                _ => false,
            },
            final(self).continues(*old(self)),
            *final(final(self).app) == *final(old(self).app),
    {
        let tab: usize = self.tab;
        match find_state(&self.app.tabs[tab].plugin_state, plugin_id) {
            Some(i) => Some(&mut self.app.tabs[tab].plugin_state[i].state),
            None => None,
        }
    }

    /// What a plugin keeps with the drawing, made by `init` where there is
    /// nothing yet.
    pub fn ensure_plugin_state_any<F: FnOnce() -> S>(&mut self, plugin_id: &str, init: F) -> (result:
        &mut S)
        requires
            old(self).valid(),
            init.requires(()),
        ensures
            match seek(old(self).tab_view().plugin_state, 0, state_of::<S>(plugin_id@)) {
                Some(i) => {
                    let kept = old(self).tab_view().plugin_state[i];
                    &&& *result == kept.state
                    &&& final(self).state() == with_state(
                        old(self).state(),
                        old(self).tab as int,
                        i,
                        PluginState { state: *final(result), ..kept },
                    )
                },
                None => {
                    let kept = final(self).tab_view().plugin_state.last();
                    &&& init.ensures((), *result)
                    &&& kept.plugin_id@ == plugin_id@
                    &&& kept.state == *final(result)
                    &&& final(self).state() == old(self).state().with_tab(
                        old(self).tab as int,
                        TabView {
                            plugin_state: old(self).tab_view().plugin_state.push(kept),
                            ..old(self).tab_view()
                        },
                    )
                },
            },
            final(self).continues(*old(self)),
            *final(final(self).app) == *final(old(self).app),
    {
        let tab: usize = self.tab;
        let index: usize = match find_state(&self.app.tabs[tab].plugin_state, plugin_id) {
            Some(i) => i,
            None => {
                let state = init();
                let index: usize = self.app.tabs[tab].plugin_state.len();
                let ghost earlier = self.app.tabs@[tab as int].plugin_state@;
                self.app.tabs[tab].plugin_state.push(
                    PluginState { plugin_id: plugin_id.to_owned(), state },
                );
                proof {
                    let grown = self.app.tabs@[tab as int].plugin_state@;
                    assert forall|kept: PluginState<S>| #[trigger]
                        grown.update(index as int, kept) == earlier.push(kept) by {
                        assert(grown.update(index as int, kept) =~= earlier.push(kept));
                    }
                }
                index
            },
        };
        &mut self.app.tabs[tab].plugin_state[index].state
    }
}

/// The application with another plugin state at a place.
pub open spec fn with_state<S, C>(
    state: StudioView<S, C>,
    tab: int,
    index: int,
    kept: PluginState<S>,
) -> StudioView<S, C> {
    state.with_tab(
        tab,
        TabView {
            plugin_state: state.tabs[tab].plugin_state.update(index, kept),
            ..state.tabs[tab]
        },
    )
}

/// A state that was changed reads back, and those of other plugins are as they
/// were.
pub proof fn changed_state_reads_back<S>(
    states: Seq<PluginState<S>>,
    plugin_id: Seq<char>,
    index: int,
    state: S,
    other: Seq<char>,
)
    requires
        seek(states, 0, state_of::<S>(plugin_id)) == Some(index),
    ensures
        ({
            let kept = PluginState { state, ..states[index] };
            let after = states.update(index, kept);
            &&& pick(after, state_of::<S>(plugin_id)) == Some(kept)
            &&& other != plugin_id ==> pick(after, state_of::<S>(other)) == pick(
                states,
                state_of::<S>(other),
            )
        }),
{
    let kept = PluginState { state, ..states[index] };
    let after = states.update(index, kept);
    seek_finds(states, 0, state_of::<S>(plugin_id));
    seek_finds(after, 0, state_of::<S>(plugin_id));
    seek_finds(states, 0, state_of::<S>(other));
    seek_finds(after, 0, state_of::<S>(other));
    assert(state_of::<S>(plugin_id)(after[index]));
    let found = seek(after, 0, state_of::<S>(plugin_id))->Some_0;
    if found < index {
        assert(state_of::<S>(plugin_id)(states[found]));
    }
    if other != plugin_id {
        if let Some(i) = seek(states, 0, state_of::<S>(other)) {
            assert(state_of::<S>(other)(after[i]));
        }
        if let Some(i) = seek(after, 0, state_of::<S>(other)) {
            assert(state_of::<S>(other)(states[i]));
        }
    }
}

/// A state that was made reads back.
pub proof fn new_state_reads_back<S>(states: Seq<PluginState<S>>, kept: PluginState<S>)
    requires
        seek(states, 0, state_of::<S>(kept.plugin_id@)) is None,
    ensures
        pick(states.push(kept), state_of::<S>(kept.plugin_id@)) == Some(kept),
{
    let after = states.push(kept);
    let test = state_of::<S>(kept.plugin_id@);
    seek_finds(states, 0, test);
    seek_finds(after, 0, test);
    assert(test(after[states.len() as int]));
    if let Some(i) = seek(after, 0, test) {
        if i < states.len() {
            assert(test(states[i]));
        }
    }
}

} // verus!
