//! The state of the application that plugins reach: open drawings, their
//! history, the command line and the ribbon.

use crate::document::{CadDocument, DocumentView};
use crate::geometry::Handle;
use crate::records::LineType;
use crate::scalar::Scalar;
use crate::scene::{Scene, SceneView};
use crate::text::{fault, join3, quote, quoted};
use vstd::prelude::*;
use vstd::string::*;

verus! {

/// A drawing as it was before a change.
pub struct Snapshot {
    pub label: String,
    pub document: CadDocument,
}

#[verifier::ext_equal]
pub struct SnapshotView {
    pub label: Seq<char>,
    pub document: DocumentView,
}

impl View for Snapshot {
    type V = SnapshotView;

    open spec fn view(&self) -> SnapshotView {
        SnapshotView { label: self.label@, document: self.document@ }
    }
}

/// What can be undone and redone, the latest change last.
pub struct History {
    pub undo_stack: Vec<Snapshot>,
    pub redo_stack: Vec<Snapshot>,
}

/// The snapshots of a stack.
pub open spec fn snapshots(stack: Seq<Snapshot>) -> Seq<SnapshotView> {
    Seq::new(stack.len(), |i: int| stack[i]@)
}

/// The state that a plugin keeps with a drawing.
pub struct PluginState<S> {
    pub plugin_id: String,
    pub state: S,
}

/// An open drawing.
pub struct DocumentTab<S, C> {
    pub id: u64,
    pub current_path: Option<String>,
    pub dirty: bool,
    /// The layer that new entities go to.
    pub active_layer: String,
    /// The layer that the layer panel shows as current.
    pub panel_layer: String,
    pub scene: Scene,
    pub history: History,
    pub plugin_state: Vec<PluginState<S>>,
    /// The command that waits for input.
    pub active_cmd: Option<C>,
}

/// What an open drawing holds.
#[verifier::ext_equal]
pub struct TabView<S, C> {
    pub id: u64,
    pub current_path: Option<String>,
    pub dirty: bool,
    pub active_layer: Seq<char>,
    pub panel_layer: Seq<char>,
    pub scene: SceneView,
    pub undo: Seq<SnapshotView>,
    pub redo: Seq<SnapshotView>,
    pub plugin_state: Seq<PluginState<S>>,
    pub active_cmd: Option<C>,
}

impl<S, C> View for DocumentTab<S, C> {
    type V = TabView<S, C>;

    open spec fn view(&self) -> TabView<S, C> {
        TabView {
            id: self.id,
            current_path: self.current_path,
            dirty: self.dirty,
            active_layer: self.active_layer@,
            panel_layer: self.panel_layer@,
            scene: self.scene@,
            undo: snapshots(self.history.undo_stack@),
            redo: snapshots(self.history.redo_stack@),
            plugin_state: self.plugin_state@,
            active_cmd: self.active_cmd,
        }
    }
}

/// How a line in the command window is meant.
#[derive(Clone, Copy, PartialEq, Eq, Structural, Debug)]
pub enum Level {
    Info,
    Output,
    Error,
}

/// A line in the command window.
pub struct CommandLineEntry {
    pub level: Level,
    pub text: String,
}

/// The kind of a style table.
#[derive(Clone, Copy, PartialEq, Eq, Structural, Debug)]
pub enum TableStyleKind {
    Text,
    Dim,
}

/// The current names that the ribbon shows.
pub struct Ribbon {
    pub active_layer: String,
    pub active_text_style: String,
    pub active_dim_style: String,
}

#[verifier::ext_equal]
pub struct RibbonView {
    pub active_layer: Seq<char>,
    pub active_text_style: Seq<char>,
    pub active_dim_style: Seq<char>,
}

impl View for Ribbon {
    type V = RibbonView;

    open spec fn view(&self) -> RibbonView {
        RibbonView {
            active_layer: self.active_layer@,
            active_text_style: self.active_text_style@,
            active_dim_style: self.active_dim_style@,
        }
    }
}

/// Something that the rest of the application has to act on.
pub enum HostEvent {
    /// The geometry of a drawing reached an epoch.
    DrawingChanged(u64, u64),
    /// The shared view of a drawing is out of date.
    ViewChanged(u64),
    /// The shared view that a session opened is out of date.
    SessionViewChanged(usize),
    /// The shared view of a drawing is no longer needed.
    ViewClosed(u64),
    /// The selection of a drawing changed.
    SelectionChanged(u64, Vec<Handle>),
    /// Whatever depends on these layers of a drawing is out of date.
    LayersChanged(usize, Vec<String>),
    /// The layer panel is out of date.
    LayerPanelChanged,
    /// Whatever depends on the styles of a kind is out of date.
    StylesChanged(TableStyleKind),
}

/// What an event says.
pub enum EventView {
    DrawingChanged(u64, u64),
    ViewChanged(u64),
    SessionViewChanged(usize),
    ViewClosed(u64),
    SelectionChanged(u64, Seq<Handle>),
    LayersChanged(usize, Seq<Seq<char>>),
    LayerPanelChanged,
    StylesChanged(TableStyleKind),
}

/// The texts of a list.
pub open spec fn texts(names: Seq<String>) -> Seq<Seq<char>> {
    Seq::new(names.len(), |i: int| names[i]@)
}

impl View for HostEvent {
    type V = EventView;

    open spec fn view(&self) -> EventView {
        match self {
            HostEvent::DrawingChanged(id, epoch) => EventView::DrawingChanged(*id, *epoch),
            HostEvent::ViewChanged(id) => EventView::ViewChanged(*id),
            HostEvent::SessionViewChanged(tab) => EventView::SessionViewChanged(*tab),
            HostEvent::ViewClosed(id) => EventView::ViewClosed(*id),
            HostEvent::SelectionChanged(id, handles) => EventView::SelectionChanged(*id, handles@),
            HostEvent::LayersChanged(tab, names) => EventView::LayersChanged(*tab, texts(names@)),
            HostEvent::LayerPanelChanged => EventView::LayerPanelChanged,
            HostEvent::StylesChanged(kind) => EventView::StylesChanged(*kind),
        }
    }
}

/// What a list of events says.
pub open spec fn said(events: Seq<HostEvent>) -> Seq<EventView> {
    Seq::new(events.len(), |i: int| events[i]@)
}

/// What the command window shows.
pub open spec fn lines(entries: Seq<CommandLineEntry>) -> Seq<(Level, Seq<char>)> {
    Seq::new(entries.len(), |i: int| (entries[i].level, entries[i].text@))
}

/// The state of the application.
pub struct OpenCADStudio<S, C> {
    pub tabs: Vec<DocumentTab<S, C>>,
    pub active_tab: usize,
    /// The drawing and the epoch that plugins were last told of.
    pub last_plugin_document: Option<(u64, u64)>,
    /// The drawing and the selection that plugins were last told of.
    pub last_plugin_selection: Option<(u64, Vec<Handle>)>,
    /// The snap angle in degrees, within one turn.
    pub snap_angle_deg: Scalar,
    pub command_line: Vec<CommandLineEntry>,
    pub ribbon: Ribbon,
    /// The linetypes that any drawing can be given.
    pub standard_linetypes: Vec<LineType>,
    /// What the rest of the application still has to act on.
    pub events: Vec<HostEvent>,
}

/// What the application holds.
#[verifier::ext_equal]
pub struct StudioView<S, C> {
    pub tabs: Seq<TabView<S, C>>,
    pub active_tab: usize,
    pub last_plugin_document: Option<(u64, u64)>,
    pub last_plugin_selection: Option<(u64, Seq<Handle>)>,
    pub snap_angle_deg: Scalar,
    pub command_line: Seq<(Level, Seq<char>)>,
    pub ribbon: RibbonView,
    pub standard_linetypes: Seq<LineType>,
    pub events: Seq<EventView>,
}

/// The open drawings.
pub open spec fn tab_views<S, C>(tabs: Seq<DocumentTab<S, C>>) -> Seq<TabView<S, C>> {
    Seq::new(tabs.len(), |i: int| tabs[i]@)
}

impl<S, C> View for OpenCADStudio<S, C> {
    type V = StudioView<S, C>;

    open spec fn view(&self) -> StudioView<S, C> {
        StudioView {
            tabs: tab_views(self.tabs@),
            active_tab: self.active_tab,
            last_plugin_document: self.last_plugin_document,
            last_plugin_selection: match self.last_plugin_selection {
                Some(told) => Some((told.0, told.1@)),
                None => None,
            },
            snap_angle_deg: self.snap_angle_deg,
            command_line: lines(self.command_line@),
            ribbon: self.ribbon@,
            standard_linetypes: self.standard_linetypes@,
            events: said(self.events@),
        }
    }
}

impl<S, C> StudioView<S, C> {
    /// The same with another drawing in a tab.
    pub open spec fn with_tab(self, tab: int, view: TabView<S, C>) -> Self {
        StudioView { tabs: self.tabs.update(tab, view), ..self }
    }

    /// The same with one more event.
    pub open spec fn with_event(self, event: EventView) -> Self {
        StudioView { events: self.events.push(event), ..self }
    }
}

/// A change to the view of the application through one tab.
pub proof fn tab_changes<S, C>(before: Seq<DocumentTab<S, C>>, after: Seq<DocumentTab<S, C>>, tab: int)
    requires
        0 <= tab < before.len(),
        after =~= before.update(tab, after[tab]),
    ensures
        tab_views(after) == tab_views(before).update(tab, after[tab]@),
{
    assert(tab_views(after) =~= tab_views(before).update(tab, after[tab]@));
}

/// The drawing after undoing its latest change.
pub open spec fn undone<S, C>(tab: TabView<S, C>) -> TabView<S, C> {
    if tab.undo.len() == 0 {
        tab
    } else {
        let last = tab.undo.last();
        TabView {
            scene: crate::scene::redrawn(tab.scene, last.document),
            undo: tab.undo.drop_last(),
            redo: tab.redo.push(
                SnapshotView { label: last.label, document: tab.scene.document },
            ),
            dirty: true,
            ..tab
        }
    }
}

/// The drawing after redoing the change that was undone last.
pub open spec fn redone<S, C>(tab: TabView<S, C>) -> TabView<S, C> {
    if tab.redo.len() == 0 {
        tab
    } else {
        let last = tab.redo.last();
        TabView {
            scene: crate::scene::redrawn(tab.scene, last.document),
            redo: tab.redo.drop_last(),
            undo: tab.undo.push(
                SnapshotView { label: last.label, document: tab.scene.document },
            ),
            dirty: true,
            ..tab
        }
    }
}

/// The drawing after undoing a number of changes.
pub open spec fn undone_times<S, C>(tab: TabView<S, C>, steps: nat) -> TabView<S, C>
    decreases steps,
{
    if steps == 0 {
        tab
    } else {
        undone_times(undone(tab), (steps - 1) as nat)
    }
}

/// The drawing after redoing a number of changes.
pub open spec fn redone_times<S, C>(tab: TabView<S, C>, steps: nat) -> TabView<S, C>
    decreases steps,
{
    if steps == 0 {
        tab
    } else {
        redone_times(redone(tab), (steps - 1) as nat)
    }
}

impl<S, C> DocumentTab<S, C> {
    /// Remembers the drawing as it is, under the name of the change to come.
    pub fn push_undo_snapshot(&mut self, label: &str)
        ensures
            final(self)@ == (TabView {
                undo: old(self)@.undo.push(
                    SnapshotView { label: label@, document: old(self)@.scene.document },
                ),
                redo: Seq::empty(),
                ..old(self)@
            }),
    {
        let snapshot = Snapshot { label: label.to_owned(), document: self.scene.document.copy() };
        self.history.undo_stack.push(snapshot);
        self.history.redo_stack.clear();
        proof {
            assert(self@.undo =~= old(self)@.undo.push(
                SnapshotView { label: label@, document: old(self)@.scene.document },
            ));
            assert(self@.redo =~= Seq::<SnapshotView>::empty());
        }
    }

    /// Undoes the latest change.
    pub fn undo(&mut self)
        ensures
            final(self)@ == undone(old(self)@),
    {
        let ghost before = self@;
        match self.history.undo_stack.pop() {
            None => {},
            Some(snapshot) => {
                let Snapshot { label, document } = snapshot;
                let current = self.scene.document.copy();
                self.history.redo_stack.push(Snapshot { label, document: current });
                self.scene.document = document;
                self.scene.bump_geometry();
                self.dirty = true;
                proof {
                    assert(self@.undo =~= before.undo.drop_last());
                    assert(self@.redo =~= undone(before).redo);
                }
            },
        }
    }

    /// Redoes the change that was undone last.
    pub fn redo(&mut self)
        ensures
            final(self)@ == redone(old(self)@),
    {
        let ghost before = self@;
        match self.history.redo_stack.pop() {
            None => {},
            Some(snapshot) => {
                let Snapshot { label, document } = snapshot;
                let current = self.scene.document.copy();
                self.history.undo_stack.push(Snapshot { label, document: current });
                self.scene.document = document;
                self.scene.bump_geometry();
                self.dirty = true;
                proof {
                    assert(self@.redo =~= before.redo.drop_last());
                    assert(self@.undo =~= redone(before).undo);
                }
            },
        }
    }

    /// Undoes a number of changes, as far as there are any.
    pub fn undo_steps(&mut self, steps: usize)
        ensures
            final(self)@ == undone_times(old(self)@, steps as nat),
    {
        let mut left: usize = steps;
        while left > 0
            invariant
                left <= steps,
                undone_times(old(self)@, steps as nat) == undone_times(self@, left as nat),
            decreases left,
        {
            self.undo();
            left = left - 1;
        }
    }

    /// Redoes a number of changes, as far as there are any.
    pub fn redo_steps(&mut self, steps: usize)
        ensures
            final(self)@ == redone_times(old(self)@, steps as nat),
    {
        let mut left: usize = steps;
        while left > 0
            invariant
                left <= steps,
                redone_times(old(self)@, steps as nat) == redone_times(self@, left as nat),
            decreases left,
        {
            self.redo();
            left = left - 1;
        }
    }
}

/// Undoing a recorded change brings the drawing back as it was, and redoing it
/// brings the change back.
pub proof fn undo_and_redo_are_inverse<S, C>(
    before: TabView<S, C>,
    recorded: TabView<S, C>,
    changed: TabView<S, C>,
    label: Seq<char>,
)
    requires
        recorded.undo == before.undo.push(
            SnapshotView { label, document: before.scene.document },
        ),
        changed.undo == recorded.undo,
    ensures
        undone(changed).scene.document == before.scene.document,
        undone(changed).undo == before.undo,
        redone(undone(changed)).scene.document == changed.scene.document,
        redone(undone(changed)).undo == changed.undo,
        redone(undone(changed)).redo == changed.redo,
{
    assert(changed.undo.drop_last() =~= before.undo);
    assert(undone(changed).redo.drop_last() =~= changed.redo);
    assert(redone(undone(changed)).undo =~= changed.undo);
}

/// What making a layer current comes to.
pub open spec fn layer_made_current<S, C>(
    before: StudioView<S, C>,
    after: StudioView<S, C>,
    tab: int,
    name: Seq<char>,
) -> bool {
    let old_tab = before.tabs[tab];
    let header = after.tabs[tab].scene.document.header;
    &&& header.current_layer_name@ == name
    &&& header == (crate::document::Header {
        current_layer_name: header.current_layer_name,
        ..old_tab.scene.document.header
    })
    &&& after == (StudioView {
        ribbon: RibbonView { active_layer: name, ..before.ribbon },
        ..before.with_tab(
            tab,
            TabView {
                dirty: true,
                active_layer: name,
                panel_layer: name,
                scene: SceneView {
                    document: DocumentView { header, ..old_tab.scene.document },
                    ..old_tab.scene
                },
                ..old_tab
            },
        )
    })
}

impl<S, C> OpenCADStudio<S, C> {
    /// Makes a layer of a drawing the current one. It has to be in the drawing.
    pub fn set_current_layer_name(&mut self, tab: usize, name: &str) -> (result: Result<
        (),
        String,
    >)
        requires
            tab < old(self)@.tabs.len(),
        ensures
            fault(result) == (if old(self)@.tabs[tab as int].scene.document.layer(name@) is Some {
                None
            } else {
                Some("layer "@ + quoted(name@) + " does not exist"@)
            }),
            result is Ok ==> layer_made_current(old(self)@, final(self)@, tab as int, name@),
            result is Err ==> final(self)@ == old(self)@,
    {
        if self.tabs[tab].scene.document.get_layer(name).is_none() {
            return Err(join3("layer ", &quote(name), " does not exist"));
        }
        let ghost before = self@;
        let ghost tabs = self.tabs@;
        self.tabs[tab].scene.document.header.current_layer_name = name.to_owned();
        self.tabs[tab].active_layer = name.to_owned();
        self.tabs[tab].panel_layer = name.to_owned();
        self.tabs[tab].dirty = true;
        self.ribbon.active_layer = name.to_owned();
        proof {
            assert(self.tabs@ =~= tabs.update(tab as int, self.tabs@[tab as int]));
            tab_changes(tabs, self.tabs@, tab as int);
        }
        Ok(())
    }
}

} // verus!
