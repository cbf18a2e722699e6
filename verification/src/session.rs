//! The session of a plugin with one open drawing.

use crate::document::{twins, CadDocument, DocumentView};
use crate::entities::Kind;
use crate::geometry::Handle;
use crate::scalar::Scalar;
use crate::scene::{redrawn, SceneView};
use crate::search::{pick, seek};
use crate::studio::{
    layer_made_current, tab_changes, CommandLineEntry, EventView, HostEvent, Level, OpenCADStudio,
    SnapshotView, StudioView, TabView,
};
use crate::text::{
    alike, check, earliest, fault, first, is_alike, join, join3, quote, quoted, unless, Fault,
};
use vstd::prelude::*;
use vstd::string::*;

verus! {

/// A view of a drawing in shared memory: where it is and how often it was
/// published.
pub struct SharedView {
    pub path: String,
    pub version: u64,
}

impl SharedView {
    pub fn copy(&self) -> (result: Self)
        ensures
            result == *self,
    {
        SharedView { path: self.path.clone(), version: self.version }
    }
}

/// What a plugin works with: one open drawing, the command line, the history.
pub struct HostSession<'a, S, C> {
    pub app: &'a mut OpenCADStudio<S, C>,
    pub tab: usize,
    /// The shared view that the plugin opened.
    pub doc_store: Option<SharedView>,
}

/// The application after telling plugins that a drawing changed. A view that the
/// session opened is published, the epoch is announced once, and so is the view.
pub open spec fn published<S, C>(state: StudioView<S, C>, tab: int, open: bool) -> StudioView<S, C> {
    let id = state.tabs[tab].id;
    let epoch = state.tabs[tab].scene.geometry_epoch;
    let first = if open {
        state.with_event(EventView::SessionViewChanged(tab as usize))
    } else {
        state
    };
    let second = if state.last_plugin_document == Some((id, epoch)) {
        first
    } else {
        first.with_event(EventView::DrawingChanged(id, epoch))
    };
    StudioView {
        last_plugin_document: Some((id, epoch)),
        ..second.with_event(EventView::ViewChanged(id))
    }
}

/// The application with another scene in a tab.
pub open spec fn with_scene<S, C>(
    state: StudioView<S, C>,
    tab: int,
    scene: SceneView,
) -> StudioView<S, C> {
    state.with_tab(tab, TabView { scene, ..state.tabs[tab] })
}

/// The application with another drawing in a tab, nothing redrawn.
pub open spec fn with_document<S, C>(
    state: StudioView<S, C>,
    tab: int,
    document: DocumentView,
) -> StudioView<S, C> {
    with_scene(state, tab, SceneView { document, ..state.tabs[tab].scene })
}

impl<'a, S, C> HostSession<'a, S, C> {
    /// The state of the application.
    pub open spec fn state(self) -> StudioView<S, C> {
        self.app@
    }

    /// The session's tab is open.
    pub open spec fn valid(self) -> bool {
        self.tab < self.state().tabs.len()
    }

    /// The session's tab.
    pub open spec fn tab_view(self) -> TabView<S, C> {
        self.state().tabs[self.tab as int]
    }

    /// The session's drawing.
    pub open spec fn doc(self) -> DocumentView {
        self.tab_view().scene.document
    }

    /// The session goes on with the same tab and the same shared view.
    pub open spec fn continues(self, before: Self) -> bool {
        self.tab == before.tab && self.doc_store == before.doc_store
    }

    /// Opens a session.
    pub fn new(app: &'a mut OpenCADStudio<S, C>, tab: usize) -> (result: Self)
        requires
            tab < old(app)@.tabs.len(),
        ensures
            *result.app == *old(app),
            *final(result.app) == *final(app),
            result.tab == tab,
            result.doc_store is None,
            result.valid(),
    {
        HostSession { app, tab, doc_store: None }
    }

    pub fn tab_index(&self) -> (result: usize)
        ensures
            result == self.tab,
    {
        self.tab
    }

    pub fn tab_id(&self) -> (result: u64)
        requires
            self.valid(),
        ensures
            result == self.tab_view().id,
    {
        self.app.tabs[self.tab].id
    }

    pub fn document(&self) -> (result: &CadDocument)
        requires
            self.valid(),
        ensures
            result@ == self.doc(),
    {
        &self.app.tabs[self.tab].scene.document
    }

    /// Tells plugins that the drawing changed.
    pub(crate) fn publish_document_view(&mut self)
        requires
            old(self).valid(),
        ensures
            final(self).state() == published(
                old(self).state(),
                old(self).tab as int,
                old(self).doc_store is Some,
            ),
            final(self).continues(*old(self)),
            final(self).valid(),
            *final(final(self).app) == *final(old(self).app),
    {
        let ghost before = self.state();
        let tab: usize = self.tab;
        let id: u64 = self.app.tabs[tab].id;
        let epoch: u64 = self.app.tabs[tab].scene.geometry_epoch;
        if self.doc_store.is_some() {
            self.app.events.push(HostEvent::SessionViewChanged(tab));
        }
        let told = match self.app.last_plugin_document {
            Some((told_id, told_epoch)) => told_id == id && told_epoch == epoch,
            None => false,
        };
        if !told {
            self.app.events.push(HostEvent::DrawingChanged(id, epoch));
        }
        self.app.events.push(HostEvent::ViewChanged(id));
        self.app.last_plugin_document = Some((id, epoch));
        proof {
            assert(self.state().events =~= published(
                before,
                tab as int,
                self.doc_store is Some,
            ).events);
            assert(self.state().tabs =~= before.tabs);
        }
    }
}

/// A setting that a plugin reads or writes.
pub enum HostSettingValue {
    Text(String),
    /// A number, with the angle within one turn that it stands for at single
    /// precision; none where it is not finite there.
    Number(Scalar, Option<Scalar>),
}

/// What a setting says.
pub enum SettingView {
    Text(Seq<char>),
    Number(Scalar, Option<Scalar>),
}

impl View for HostSettingValue {
    type V = SettingView;

    open spec fn view(&self) -> SettingView {
        match self {
            HostSettingValue::Text(text) => SettingView::Text(text@),
            HostSettingValue::Number(value, turn) => SettingView::Number(*value, *turn),
        }
    }
}

/// The tab has the id.
pub open spec fn tab_with<S, C>(id: u64) -> spec_fn(TabView<S, C>) -> bool {
    |tab: TabView<S, C>| tab.id == id
}

/// The path of the drawing in the tab with an id.
pub open spec fn path_of<S, C>(state: StudioView<S, C>, id: u64) -> Option<String> {
    match pick(state.tabs, tab_with::<S, C>(id)) {
        Some(tab) => tab.current_path,
        None => None,
    }
}

/// The handle comes earlier in the list.
pub open spec fn selected_earlier(handles: Seq<Handle>, index: int) -> bool {
    exists|j: int| 0 <= j < index && #[trigger] handles[j] == handles[index]
}

/// For each handle to select, that it comes once and leads to an entity.
pub open spec fn selection_checks(doc: DocumentView, handles: Seq<Handle>) -> spec_fn(int) -> Fault {
    |i: int|
        first(
            unless(
                !selected_earlier(handles, i),
                "duplicate selected entity: "@ + handles[i].shown(),
            ),
            unless(
                doc.entity(handles[i]) is Some,
                "entity "@ + handles[i].shown() + " does not exist"@,
            ),
        )
}

/// The application after a selection, where it is a new one.
pub open spec fn selected<S, C>(
    before: StudioView<S, C>,
    tab: int,
    handles: Seq<Handle>,
) -> StudioView<S, C> {
    let old_tab = before.tabs[tab];
    if old_tab.scene.selection == handles {
        before
    } else {
        StudioView {
            last_plugin_selection: if tab == before.active_tab {
                Some((old_tab.id, handles))
            } else {
                before.last_plugin_selection
            },
            ..with_scene(
                before,
                tab,
                SceneView { selection: handles, ..old_tab.scene },
            ).with_event(EventView::SelectionChanged(old_tab.id, handles))
        }
    }
}

fn same_handles(a: &Vec<Handle>, b: &[Handle]) -> (result: bool)
    ensures
        result == (a@ == b@),
{
    if a.len() != b.len() {
        return false;
    }
    let mut i: usize = 0;
    while i < a.len()
        invariant
            i <= a.len(),
            a.len() == b.len(),
            forall|j: int| 0 <= j < i ==> a@[j] == b@[j],
        decreases a.len() - i,
    {
        if a[i] != b[i] {
            return false;
        }
        i = i + 1;
    }
    proof {
        assert(a@ =~= b@);
    }
    true
}

fn to_list(handles: &[Handle]) -> (result: Vec<Handle>)
    ensures
        result@ == handles@,
{
    let mut result: Vec<Handle> = Vec::new();
    let mut i: usize = 0;
    while i < handles.len()
        invariant
            i <= handles.len(),
            result@ == handles@.take(i as int),
        decreases handles.len() - i,
    {
        result.push(handles[i]);
        i = i + 1;
        proof {
            assert(result@ =~= handles@.take(i as int));
        }
    }
    proof {
        assert(result@ =~= handles@);
    }
    result
}

/// Checks the handles to select.
fn check_selection(doc: &CadDocument, handles: &[Handle]) -> (result: Result<(), String>)
    ensures
        fault(result) == earliest(0, handles@.len() as int, selection_checks(doc@, handles@)),
{
    let mut i: usize = 0;
    while i < handles.len()
        invariant
            i <= handles.len(),
            earliest(0, handles@.len() as int, selection_checks(doc@, handles@)) == earliest(
                i as int,
                handles@.len() as int,
                selection_checks(doc@, handles@),
            ),
        decreases handles.len() - i,
    {
        let mut earlier = false;
        let mut j: usize = 0;
        while j < i
            invariant
                j <= i < handles.len(),
                earlier == exists|k: int| 0 <= k < j && #[trigger] handles@[k] == handles@[i as int],
            decreases i - j,
        {
            if handles[j] == handles[i] {
                earlier = true;
            }
            j = j + 1;
        }
        check(!earlier, &join("duplicate selected entity: ", &handles[i].show()))?;
        check(
            doc.get_entity(handles[i]).is_some(),
            &join3("entity ", &handles[i].show(), " does not exist"),
        )?;
        i = i + 1;
    }
    Ok(())
}

/// The value of a setting, where the host has one of the name. Names are not
/// case-sensitive.
pub open spec fn setting<S, C>(state: StudioView<S, C>, tab: int, name: Seq<char>) -> Option<
    SettingView,
> {
    if alike(name, "CLAYER"@) {
        Some(SettingView::Text(state.tabs[tab].scene.document.header.current_layer_name@))
    } else if alike(name, "SNAPANG"@) {
        Some(SettingView::Number(state.snap_angle_deg, Some(state.snap_angle_deg)))
    } else {
        None
    }
}

/// Why a setting cannot be changed.
pub open spec fn setting_fault(doc: DocumentView, name: Seq<char>, value: SettingView) -> Fault {
    if alike(name, "CLAYER"@) {
        match value {
            SettingView::Text(layer) => unless(
                doc.layer(layer) is Some,
                "layer "@ + quoted(layer) + " does not exist"@,
            ),
            SettingView::Number(..) => Some("CLAYER: wrong value type"@),
        }
    } else if alike(name, "SNAPANG"@) {
        match value {
            SettingView::Number(_, turn) => unless(
                turn is Some,
                "SNAPANG: finite number required"@,
            ),
            SettingView::Text(_) => Some("SNAPANG: wrong value type"@),
        }
    } else {
        Some("unsupported system variable "@ + quoted(name))
    }
}

/// The handle and the kind of the entity at a place.
pub open spec fn entity_at(doc: DocumentView, index: int) -> Option<(Handle, Kind)> {
    if 0 <= index < doc.entities.len() {
        let entity = doc.entities[index];
        Some((entity.common.handle, entity.data.kind()))
    } else {
        None
    }
}

/// The entities of a drawing, one by one.
pub struct CadDocumentReader<'d> {
    pub document: &'d CadDocument,
}

impl<'d> CadDocumentReader<'d> {
    pub fn entity_count(&self) -> (result: usize)
        ensures
            result == self.document@.entities.len(),
    {
        self.document.entities.len()
    }

    /// The handle and the kind of an entity.
    pub fn entity(&self, index: usize) -> (result: Option<(Handle, Kind)>)
        ensures
            result == entity_at(self.document@, index as int),
    {
        if index < self.document.entities.len() {
            let entity = &self.document.entities[index];
            Some((entity.common.handle, entity.data.kind_of()))
        } else {
            None
        }
    }
}

impl<'a, S, C> HostSession<'a, S, C> {
    /// The path of the drawing in the tab with an id.
    #[verifier::loop_isolation(false)]
    pub fn document_path(&self, tab_id: u64) -> (result: Option<String>)
        ensures
            result == path_of(self.state(), tab_id),
    {
        let ghost tabs = self.state().tabs;
        let mut i: usize = 0;
        while i < self.app.tabs.len()
            invariant
                i <= self.app.tabs.len(),
                seek(tabs, 0, tab_with::<S, C>(tab_id)) == seek(
                    tabs,
                    i as int,
                    tab_with::<S, C>(tab_id),
                ),
            decreases self.app.tabs.len() - i,
        {
            proof {
                assert(tabs[i as int] == self.app.tabs@[i as int]@);
            }
            if self.app.tabs[i].id == tab_id {
                return match &self.app.tabs[i].current_path {
                    Some(path) => Some(path.clone()),
                    None => None,
                };
            }
            i = i + 1;
        }
        None
    }

    /// The shared view of the session's drawing. `opened` is what opening one
    /// came to; it is only asked for where the session has none yet.
    pub fn document_view(&mut self, opened: Option<SharedView>) -> (result: Option<SharedView>)
        ensures
            result == (if old(self).doc_store is Some {
                old(self).doc_store
            } else {
                opened
            }),
            final(self).doc_store == result,
            final(self).tab == old(self).tab,
            final(self).state() == old(self).state(),
            *final(final(self).app) == *final(old(self).app),
    {
        if self.doc_store.is_none() {
            self.doc_store = opened;
        }
        match &self.doc_store {
            Some(view) => Some(view.copy()),
            None => None,
        }
    }

    /// Takes note of how often the session's shared view was published.
    pub fn view_published(&mut self, version: u64)
        ensures
            final(self).doc_store == (match old(self).doc_store {
                Some(view) => Some(SharedView { version, ..view }),
                None => None,
            }),
            final(self).tab == old(self).tab,
            final(self).state() == old(self).state(),
            *final(final(self).app) == *final(old(self).app),
    {
        let noted = match &self.doc_store {
            Some(view) => Some(SharedView { path: view.path.clone(), version }),
            None => None,
        };
        self.doc_store = noted;
    }

    /// The shared view of a drawing by its id, which has to be the session's.
    /// `opened` is what opening one came to.
    pub fn document_view_v4(&mut self, tab_id: u64, opened: Option<SharedView>) -> (result: Option<
        SharedView,
    >)
        requires
            old(self).valid(),
        ensures
            result == (if tab_id == old(self).tab_view().id {
                opened
            } else {
                None
            }),
            *final(self) == *old(self),
    {
        if tab_id != self.tab_id() {
            return None;
        }
        opened
    }

    /// Lets go of the shared view of a drawing by its id, where it is the
    /// session's.
    pub fn close_document_view_v4(&mut self, tab_id: u64)
        requires
            old(self).valid(),
        ensures
            final(self).state() == let_go(old(self).state(), old(self).tab as int, tab_id),
            final(self).continues(*old(self)),
            final(self).valid(),
            *final(final(self).app) == *final(old(self).app),
    {
        if tab_id == self.tab_id() {
            let ghost before = self.state();
            self.app.events.push(HostEvent::ViewClosed(tab_id));
            proof {
                assert(self.state().events =~= before.events.push(EventView::ViewClosed(tab_id)));
            }
        }
    }

    /// The entities of the drawing, one by one.
    pub fn document_reader(&self) -> (result: CadDocumentReader<'_>)
        requires
            self.valid(),
        ensures
            result.document@ == self.doc(),
    {
        CadDocumentReader { document: self.document() }
    }

    /// Marks the geometry of the drawing as changed.
    pub fn bump_geometry(&mut self)
        requires
            old(self).valid(),
        ensures
            final(self).state() == with_scene(
                old(self).state(),
                old(self).tab as int,
                redrawn(old(self).tab_view().scene, old(self).doc()),
            ),
            final(self).continues(*old(self)),
            final(self).valid(),
            *final(final(self).app) == *final(old(self).app),
    {
        let ghost tabs = self.app.tabs@;
        let tab: usize = self.tab;
        self.app.tabs[tab].scene.bump_geometry();
        proof {
            tab_changes(tabs, self.app.tabs@, tab as int);
        }
    }

    /// Remembers the drawing as it is, under the name of the change to come.
    pub fn push_undo(&mut self, label: &str)
        requires
            old(self).valid(),
        ensures
            final(self).state() == recorded(old(self).state(), old(self).tab as int, label@),
            final(self).continues(*old(self)),
            final(self).valid(),
            *final(final(self).app) == *final(old(self).app),
    {
        let ghost tabs = self.app.tabs@;
        let tab: usize = self.tab;
        self.app.tabs[tab].push_undo_snapshot(label);
        proof {
            tab_changes(tabs, self.app.tabs@, tab as int);
        }
    }

    /// Marks the drawing as changed since it was saved.
    pub fn set_dirty(&mut self)
        requires
            old(self).valid(),
        ensures
            final(self).state() == dirtied(old(self).state(), old(self).tab as int),
            final(self).continues(*old(self)),
            final(self).valid(),
            *final(final(self).app) == *final(old(self).app),
    {
        let ghost tabs = self.app.tabs@;
        let tab: usize = self.tab;
        self.app.tabs[tab].dirty = true;
        proof {
            tab_changes(tabs, self.app.tabs@, tab as int);
        }
    }

    /// The selected entities, in the order in which they were selected.
    pub fn selection(&self) -> (result: Vec<Handle>)
        requires
            self.valid(),
        ensures
            result@ == self.tab_view().scene.selection,
    {
        twins(&self.app.tabs[self.tab].scene.selection)
    }

    /// Selects exactly the given entities. Where one is not there, or comes
    /// twice, the selection stays as it was.
    pub fn set_selection(&mut self, handles: &[Handle]) -> (result: Result<(), String>)
        requires
            old(self).valid(),
        ensures
            fault(result) == earliest(
                0,
                handles@.len() as int,
                selection_checks(old(self).doc(), handles@),
            ),
            final(self).state() == (if result is Ok {
                selected(old(self).state(), old(self).tab as int, handles@)
            } else {
                old(self).state()
            }),
            final(self).continues(*old(self)),
            final(self).valid(),
            *final(final(self).app) == *final(old(self).app),
    {
        let ghost before = self.state();
        let ghost tabs = self.app.tabs@;
        let tab: usize = self.tab;
        check_selection(&self.app.tabs[tab].scene.document, handles)?;
        if same_handles(&self.app.tabs[tab].scene.selection, handles) {
            return Ok(());
        }
        let id: u64 = self.app.tabs[tab].id;
        self.app.tabs[tab].scene.selection = to_list(handles);
        proof {
            tab_changes(tabs, self.app.tabs@, tab as int);
        }
        if tab == self.app.active_tab {
            self.app.last_plugin_selection = Some((id, to_list(handles)));
        }
        self.app.events.push(HostEvent::SelectionChanged(id, to_list(handles)));
        proof {
            assert(self.state().events =~= selected(before, tab as int, handles@).events);
        }
        Ok(())
    }

    /// The value of a setting.
    pub fn system_variable(&self, name: &str) -> (result: Option<HostSettingValue>)
        requires
            self.valid(),
        ensures
            match (result, setting(self.state(), self.tab as int, name@)) {
                (Some(value), Some(expected)) => value@ == expected,
                (None, None) => true,
                _ => false,
            },
    {
        if is_alike(name, "CLAYER") {
            Some(
                HostSettingValue::Text(
                    self.app.tabs[self.tab].scene.document.header.current_layer_name.clone(),
                ),
            )
        } else if is_alike(name, "SNAPANG") {
            Some(HostSettingValue::Number(self.app.snap_angle_deg, Some(self.app.snap_angle_deg)))
        } else {
            None
        }
    }

    /// Changes a setting. The result is the value that it now has.
    pub fn set_system_variable(&mut self, name: &str, value: HostSettingValue) -> (result: Result<
        HostSettingValue,
        String,
    >)
        requires
            old(self).valid(),
        ensures
            fault(result) == setting_fault(old(self).doc(), name@, value@),
            result is Err ==> final(self).state() == old(self).state(),
            result matches Ok(now) ==> setting(
                final(self).state(),
                final(self).tab as int,
                name@,
            ) == Some(now@),
            result is Ok ==> match value@ {
                SettingView::Text(layer) => layer_made_current(
                    old(self).state(),
                    final(self).state(),
                    old(self).tab as int,
                    layer,
                ),
                SettingView::Number(_, turn) => final(self).state() == (StudioView {
                    snap_angle_deg: turn->Some_0,
                    ..old(self).state()
                }),
            },
            final(self).continues(*old(self)),
            final(self).valid(),
            *final(final(self).app) == *final(old(self).app),
    {
        let tab: usize = self.tab;
        proof {
            reveal_strlit("CLAYER");
            reveal_strlit("SNAPANG");
        }
        if is_alike(name, "CLAYER") {
            match value {
                HostSettingValue::Text(layer) => {
                    self.app.set_current_layer_name(tab, &layer)?;
                    Ok(HostSettingValue::Text(layer))
                },
                HostSettingValue::Number(..) => Err("CLAYER: wrong value type".to_owned()),
            }
        } else if is_alike(name, "SNAPANG") {
            match value {
                HostSettingValue::Number(_, Some(turn)) => {
                    self.app.snap_angle_deg = turn;
                    Ok(HostSettingValue::Number(turn, Some(turn)))
                },
                HostSettingValue::Number(_, None) => Err(
                    "SNAPANG: finite number required".to_owned(),
                ),
                HostSettingValue::Text(_) => Err("SNAPANG: wrong value type".to_owned()),
            }
        } else {
            Err(join("unsupported system variable ", &quote(name)))
        }
    }

    fn push_line(&mut self, level: Level, text: &str)
        ensures
            final(self).state() == shown(old(self).state(), level, text@),
            final(self).continues(*old(self)),
            *final(final(self).app) == *final(old(self).app),
    {
        let ghost before = self.state();
        self.app.command_line.push(CommandLineEntry { level, text: text.to_owned() });
        proof {
            assert(self.state().command_line =~= before.command_line.push((level, text@)));
        }
    }

    /// Shows a message in the command window.
    pub fn push_info(&mut self, msg: &str)
        ensures
            final(self).state() == informed(old(self).state(), msg@),
            final(self).continues(*old(self)),
            *final(final(self).app) == *final(old(self).app),
    {
        self.push_line(Level::Info, msg)
    }

    /// Shows the output of a command in the command window.
    pub fn push_output(&mut self, msg: &str)
        ensures
            final(self).state() == printed(old(self).state(), msg@),
            final(self).continues(*old(self)),
            *final(final(self).app) == *final(old(self).app),
    {
        self.push_line(Level::Output, msg)
    }

    /// Shows an error in the command window.
    pub fn push_error(&mut self, msg: &str)
        ensures
            final(self).state() == complained(old(self).state(), msg@),
            final(self).continues(*old(self)),
            *final(final(self).app) == *final(old(self).app),
    {
        self.push_line(Level::Error, msg)
    }

    /// Hands the drawing over to a command that waits for input.
    pub fn start_interactive(&mut self, command: C)
        requires
            old(self).valid(),
        ensures
            final(self).state() == taken_over(old(self).state(), old(self).tab as int, command),
            final(self).continues(*old(self)),
            final(self).valid(),
            *final(final(self).app) == *final(old(self).app),
    {
        let ghost tabs = self.app.tabs@;
        let tab: usize = self.tab;
        self.app.tabs[tab].active_cmd = Some(command);
        proof {
            tab_changes(tabs, self.app.tabs@, tab as int);
        }
    }
}

/// The application with the drawing of a tab recorded for undoing.
pub open spec fn recorded<S, C>(
    state: StudioView<S, C>,
    tab: int,
    label: Seq<char>,
) -> StudioView<S, C> {
    let old_tab = state.tabs[tab];
    state.with_tab(
        tab,
        TabView {
            undo: old_tab.undo.push(SnapshotView { label, document: old_tab.scene.document }),
            redo: Seq::empty(),
            ..old_tab
        },
    )
}

/// The application with the drawing of a tab marked as changed.
pub open spec fn dirtied<S, C>(state: StudioView<S, C>, tab: int) -> StudioView<S, C> {
    state.with_tab(tab, TabView { dirty: true, ..state.tabs[tab] })
}

/// The application with one more line in the command window.
pub open spec fn shown<S, C>(
    state: StudioView<S, C>,
    level: Level,
    text: Seq<char>,
) -> StudioView<S, C> {
    StudioView { command_line: state.command_line.push((level, text)), ..state }
}

/// The application with a message in the command window.
pub open spec fn informed<S, C>(state: StudioView<S, C>, text: Seq<char>) -> StudioView<S, C> {
    shown(state, Level::Info, text)
}

/// The application with output of a command in the command window.
pub open spec fn printed<S, C>(state: StudioView<S, C>, text: Seq<char>) -> StudioView<S, C> {
    shown(state, Level::Output, text)
}

/// The application with an error in the command window.
pub open spec fn complained<S, C>(state: StudioView<S, C>, text: Seq<char>) -> StudioView<S, C> {
    shown(state, Level::Error, text)
}

/// The application with the drawing of a tab handed over to a command.
pub open spec fn taken_over<S, C>(state: StudioView<S, C>, tab: int, command: C) -> StudioView<
    S,
    C,
> {
    state.with_tab(tab, TabView { active_cmd: Some(command), ..state.tabs[tab] })
}

/// The application without the shared view of the drawing with an id, where that is
/// the one of the tab.
pub open spec fn let_go<S, C>(state: StudioView<S, C>, tab: int, id: u64) -> StudioView<S, C> {
    if id == state.tabs[tab].id {
        state.with_event(EventView::ViewClosed(id))
    } else {
        state
    }
}

} // verus!
