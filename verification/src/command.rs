//! What commands tell the application, and what plugins' commands tell it
//! through their adapters.

use crate::entities::EntityType;
use crate::geometry::{Handle, Vector3};
use crate::scene::{entity_added, redrawn};
use crate::session::with_scene;
use crate::studio::{tab_changes, OpenCADStudio, StudioView, TabView};
use vstd::prelude::*;
use vstd::string::*;

verus! {

/// A part of an entity that a constraint holds on to.
#[derive(Clone, Copy, PartialEq, Eq, Structural, Debug)]
pub enum Part {
    Whole,
    /// One of its points.
    Point(i64),
    /// One of its segments.
    Segment(i64),
}

/// A reference to a part of an entity.
#[derive(Clone, Copy, PartialEq, Eq, Structural, Debug)]
pub struct ParametricRef {
    pub entity: Handle,
    pub part: Part,
}

/// What a dimensional constraint measures.
#[derive(Clone, Copy, PartialEq, Eq, Structural, Debug)]
pub enum ConstraintKind {
    Distance,
    DistanceX,
    DistanceY,
    DistanceDirected,
}

/// The end of a line, and where it is.
#[derive(Clone, Copy, PartialEq, Eq, Structural, Debug)]
pub struct LineEnd {
    pub reference: ParametricRef,
    pub position: Vector3,
}

/// A dimensional constraint.
#[derive(Clone, Copy, PartialEq, Eq, Structural, Debug)]
pub struct DimensionalConstraint {
    pub kind: ConstraintKind,
    pub first: ParametricRef,
    pub second: ParametricRef,
    pub first_point: Vector3,
    pub second_point: Vector3,
    pub location: Vector3,
    pub axis: Vector3,
    pub direction: Option<ParametricRef>,
}

/// What a command asks the application to do.
pub enum CmdResult {
    NeedPoint,
    Cancel,
    CommitEntity(EntityType),
    CommitAndExit(EntityType),
    ReportError(String),
    ReportMeasurement(String),
    /// Find the constraint point at a pick.
    CheckConstraintPoint(Option<Handle>, Vector3),
    /// Make the second line parallel to the first.
    MakeParallel(ParametricRef, [ParametricRef; 2], ParametricRef, [ParametricRef; 2]),
    /// Add a constraint with a name, an expression and a label for undoing.
    AddDimensionalConstraint(DimensionalConstraint, String, String, String),
    /// Run another command.
    Dispatch(String),
}

/// What a request of a command says.
pub enum ResultView {
    NeedPoint,
    Cancel,
    CommitEntity(EntityType),
    CommitAndExit(EntityType),
    ReportError(Seq<char>),
    ReportMeasurement(Seq<char>),
    CheckConstraintPoint(Option<Handle>, Vector3),
    MakeParallel(ParametricRef, Seq<ParametricRef>, ParametricRef, Seq<ParametricRef>),
    AddDimensionalConstraint(DimensionalConstraint, Seq<char>, Seq<char>, Seq<char>),
    Dispatch(Seq<char>),
}

impl View for CmdResult {
    type V = ResultView;

    open spec fn view(&self) -> ResultView {
        match self {
            CmdResult::NeedPoint => ResultView::NeedPoint,
            CmdResult::Cancel => ResultView::Cancel,
            CmdResult::CommitEntity(entity) => ResultView::CommitEntity(*entity),
            CmdResult::CommitAndExit(entity) => ResultView::CommitAndExit(*entity),
            CmdResult::ReportError(text) => ResultView::ReportError(text@),
            CmdResult::ReportMeasurement(text) => ResultView::ReportMeasurement(text@),
            CmdResult::CheckConstraintPoint(handle, point) => ResultView::CheckConstraintPoint(
                *handle,
                *point,
            ),
            CmdResult::MakeParallel(
                first,
                first_ends,
                second,
                second_ends,
            ) => ResultView::MakeParallel(*first, first_ends@, *second, second_ends@),
            CmdResult::AddDimensionalConstraint(
                constraint,
                name,
                expression,
                label,
            ) => ResultView::AddDimensionalConstraint(*constraint, name@, expression@, label@),
            CmdResult::Dispatch(command) => ResultView::Dispatch(command@),
        }
    }
}

/// What a plugin's command answers to an event.
pub enum CommandStep {
    NeedPoint,
    Commit(EntityType),
    CommitAndEnd(EntityType),
    Done,
    Cancel,
}

/// What the application makes of a plugin's answer. A plugin that gave none,
/// because it failed, ends its command.
pub open spec fn step_view(step: Option<CommandStep>) -> ResultView {
    match step {
        Some(CommandStep::NeedPoint) => ResultView::NeedPoint,
        Some(CommandStep::Commit(entity)) => ResultView::CommitEntity(entity),
        Some(CommandStep::CommitAndEnd(entity)) => ResultView::CommitAndExit(entity),
        Some(CommandStep::Done) => ResultView::Cancel,
        Some(CommandStep::Cancel) => ResultView::Cancel,
        None => ResultView::Cancel,
    }
}

/// What a plugin's answer asks of the application.
pub fn plugin_step_to_result(step: CommandStep) -> (result: CmdResult)
    ensures
        result@ == step_view(Some(step)),
{
    match step {
        CommandStep::NeedPoint => CmdResult::NeedPoint,
        CommandStep::Commit(entity) => CmdResult::CommitEntity(entity),
        CommandStep::CommitAndEnd(entity) => CmdResult::CommitAndExit(entity),
        CommandStep::Done | CommandStep::Cancel => CmdResult::Cancel,
    }
}

/// What an event comes to, where the plugin may have failed to answer it.
pub fn guarded_step(step: Option<CommandStep>) -> (result: CmdResult)
    ensures
        result@ == step_view(step),
{
    match step {
        Some(step) => plugin_step_to_result(step),
        None => CmdResult::Cancel,
    }
}

/// The command of a plugin that runs in another process. What it last said of
/// its prompt and of the pick that it waits for is kept here.
pub struct PluginProcessInteractiveAdapter {
    pub command_id: u64,
    pub prompt: Option<String>,
    pub needs_entity_pick: Option<bool>,
}

impl PluginProcessInteractiveAdapter {
    /// A command, with what its process answered at first.
    pub fn new(command_id: u64, prompt: Option<String>, needs_entity_pick: Option<bool>) -> (result:
        Self)
        ensures
            result == (PluginProcessInteractiveAdapter { command_id, prompt, needs_entity_pick }),
    {
        PluginProcessInteractiveAdapter { command_id, prompt, needs_entity_pick }
    }

    /// The prompt; empty where the process did not give one.
    pub fn prompt(&self) -> (result: String)
        ensures
            result@ == said_prompt(self.prompt),
    {
        match &self.prompt {
            Some(text) => text.clone(),
            None => "".to_owned(),
        }
    }

    /// Whether the command waits for an entity; not where the process did not
    /// say.
    pub fn needs_entity_pick(&self) -> (result: bool)
        ensures
            result == said_pick(self.needs_entity_pick),
    {
        match self.needs_entity_pick {
            Some(needs) => needs,
            None => false,
        }
    }

    /// Takes the answer of the process to an event, and what it then says of its
    /// prompt and of the pick that it waits for.
    pub fn on_event(
        &mut self,
        step: Option<CommandStep>,
        prompt: Option<String>,
        needs_entity_pick: Option<bool>,
    ) -> (result: CmdResult)
        ensures
            result@ == step_view(step),
            *final(self) == after_event(*old(self), prompt, needs_entity_pick),
    {
        self.prompt = prompt;
        self.needs_entity_pick = needs_entity_pick;
        guarded_step(step)
    }
}

/// The prompt that a process gave; empty where it gave none.
pub open spec fn said_prompt(prompt: Option<String>) -> Seq<char> {
    match prompt {
        Some(text) => text@,
        None => ""@,
    }
}

/// Whether a process said that it waits for an entity.
pub open spec fn said_pick(needs_entity_pick: Option<bool>) -> bool {
    needs_entity_pick == Some(true)
}

/// A command after its process answered an event.
pub open spec fn after_event(
    before: PluginProcessInteractiveAdapter,
    prompt: Option<String>,
    needs_entity_pick: Option<bool>,
) -> PluginProcessInteractiveAdapter {
    PluginProcessInteractiveAdapter { command_id: before.command_id, prompt, needs_entity_pick }
}

/// What a request of the active command comes to. A committed entity goes into
/// the drawing; the command ends where it says so.
pub open spec fn request_done<S, C>(
    before: StudioView<S, C>,
    after: StudioView<S, C>,
    tab: int,
    request: ResultView,
) -> bool {
    let old_tab = before.tabs[tab];
    match request {
        ResultView::CommitEntity(entity) => {
            let changed = after.tabs[tab].scene.document;
            &&& entity_added(old_tab.scene.document, changed, entity)
            &&& after == with_scene(before, tab, redrawn(old_tab.scene, changed))
        },
        ResultView::CommitAndExit(entity) => {
            let changed = after.tabs[tab].scene.document;
            &&& entity_added(old_tab.scene.document, changed, entity)
            &&& after == before.with_tab(
                tab,
                TabView {
                    scene: redrawn(old_tab.scene, changed),
                    active_cmd: None,
                    ..old_tab
                },
            )
        },
        ResultView::Cancel => after == before.with_tab(
            tab,
            TabView { active_cmd: None, ..old_tab },
        ),
        _ => after == before,
    }
}

impl<S, C> OpenCADStudio<S, C> {
    /// Does what the active command of a tab asks for in the drawing.
    pub fn apply_cmd_result(&mut self, tab: usize, request: CmdResult)
        requires
            tab < old(self)@.tabs.len(),
            old(self)@.tabs[tab as int].scene.document.spare(2),
            request@ matches ResultView::CommitEntity(entity) ==> entity.common.handle.value
                < u64::MAX,
            request@ matches ResultView::CommitAndExit(entity) ==> entity.common.handle.value
                < u64::MAX,
        ensures
            request_done(old(self)@, final(self)@, tab as int, request@),
    {
        let ghost before = self@;
        let ghost tabs = self.tabs@;
        proof {
            assert(tabs[tab as int]@ == before.tabs[tab as int]);
        }
        match request {
            CmdResult::CommitEntity(entity) => {
                self.tabs[tab].scene.add_entity(entity);
                proof {
                    tab_changes(tabs, self.tabs@, tab as int);
                }
            },
            CmdResult::CommitAndExit(entity) => {
                self.tabs[tab].scene.add_entity(entity);
                self.tabs[tab].active_cmd = None;
                proof {
                    tab_changes(tabs, self.tabs@, tab as int);
                }
            },
            CmdResult::Cancel => {
                self.tabs[tab].active_cmd = None;
                proof {
                    tab_changes(tabs, self.tabs@, tab as int);
                }
            },
            _ => {},
        }
    }
}

} // verus!
