//! The task-supervision tree: every long-lived worker of the node is
//! registered here with a recovery policy, and each completion is mapped
//! through a fixed table to a node-wide reaction.
//!
//! The async runtime owns the futures themselves; the supervisor's state
//! is the set of registered task descriptors, and its decisions — what a
//! completion means, which applications to pause or disable, when the run
//! loop ends — are all taken here, on plain values.

use vstd::prelude::*;

use crate::data::CellId;
use crate::data::DnaHash;

verus! {

/// How the completion of a managed task is handled. Attached at
/// registration and never changed for the task's lifetime.
#[derive(Clone, Copy, PartialEq, Eq, Debug)]
pub enum TaskKind {
    /// Log an error if there is one, but otherwise do nothing.
    Ignore,
    /// If the task returns an error, shut the whole node down.
    Unrecoverable,
    /// If the task returns an error, stop the applications that depend on
    /// this cell, but keep the node and the other tasks running.
    CellCritical(CellId),
    /// If the task returns an error, stop the applications that depend on
    /// this application definition, but keep the node running.
    DnaCritical(DnaHash),
    /// The registrant supplied its own reaction, run outside the
    /// supervisor; the reaction's verdict is handed back as a
    /// [`TaskOutcome`].
    Generic,
}

/// Why a managed task failed, as far as recovery policy reads it: whether
/// the failure is recoverable, and its rendered text for the record.
#[derive(Clone, PartialEq, Eq, Debug)]
pub struct TaskError {
    pub recoverable: bool,
    pub text: String,
}

/// What a managed task resolved to.
pub type ManagedTaskResult = Result<(), TaskError>;

/// A task registered with the supervisor: its recovery policy and its
/// diagnostic name. The future itself lives with the runtime.
#[derive(Clone, PartialEq, Eq, Debug)]
pub struct ManagedTaskAdd {
    pub kind: TaskKind,
    pub name: String,
}

impl ManagedTaskAdd {
    /// A task whose death the supervisor only notes.
    pub fn ignore(name: String) -> (t: ManagedTaskAdd)
        ensures
            t.kind == TaskKind::Ignore,
            t.name == name,
    {
        ManagedTaskAdd { kind: TaskKind::Ignore, name }
    }

    /// A task whose failure must shut the whole node down.
    pub fn unrecoverable(name: String) -> (t: ManagedTaskAdd)
        ensures
            t.kind == TaskKind::Unrecoverable,
            t.name == name,
    {
        ManagedTaskAdd { kind: TaskKind::Unrecoverable, name }
    }

    /// A task whose failure stops only the applications on one cell.
    pub fn cell_critical(cell_id: CellId, name: String) -> (t: ManagedTaskAdd)
        ensures
            t.kind == TaskKind::CellCritical(cell_id),
            t.name == name,
    {
        ManagedTaskAdd { kind: TaskKind::CellCritical(cell_id), name }
    }

    /// A task whose failure stops only the applications on one
    /// application definition.
    pub fn dna_critical(dna_hash: DnaHash, name: String) -> (t: ManagedTaskAdd)
        ensures
            t.kind == TaskKind::DnaCritical(dna_hash),
            t.name == name,
    {
        ManagedTaskAdd { kind: TaskKind::DnaCritical(dna_hash), name }
    }

    /// A task with a caller-supplied reaction to its completion.
    pub fn generic(name: String) -> (t: ManagedTaskAdd)
        ensures
            t.kind == TaskKind::Generic,
            t.name == name,
    {
        ManagedTaskAdd { kind: TaskKind::Generic, name }
    }
}

/// The supervisor's reaction to one task's completion. Ephemeral:
/// consumed as soon as it arises.
#[derive(Clone, PartialEq, Eq, Debug)]
pub enum TaskOutcome {
    /// Register a replacement task without leaving the run loop.
    NewTask(ManagedTaskAdd),
    /// Log and take no other action.
    LogInfo(String),
    /// Log as a minor error and take no other action.
    MinorError(TaskError, String),
    /// Shut the whole node down over an unrecoverable failure.
    ShutdownConductor(TaskError, String),
    /// Pause or disable every application depending on the failed cell,
    /// depending on the specific error.
    StopApps(CellId, TaskError, String),
    /// Pause or disable every application depending on the failed
    /// application definition, depending on the specific error.
    StopAppsWithDna(DnaHash, TaskError, String),
}

/// The fixed table from a task's policy and its result to the
/// supervisor's reaction. The reaction of a `Generic` task is supplied by
/// its registrant and is not defined here; see [`handle_completed_task`].
pub open spec fn spec_handle_completed_task(
    kind: TaskKind,
    result: ManagedTaskResult,
    name: String,
) -> TaskOutcome {
    match kind {
        TaskKind::Ignore => match result {
            Ok(_) => TaskOutcome::LogInfo(name),
            Err(err) => TaskOutcome::MinorError(err, name),
        },
        TaskKind::Unrecoverable => match result {
            Ok(_) => TaskOutcome::LogInfo(name),
            Err(err) => TaskOutcome::ShutdownConductor(err, name),
        },
        TaskKind::CellCritical(cell_id) => match result {
            Ok(_) => TaskOutcome::LogInfo(name),
            Err(err) => TaskOutcome::StopApps(cell_id, err, name),
        },
        TaskKind::DnaCritical(dna_hash) => match result {
            Ok(_) => TaskOutcome::LogInfo(name),
            Err(err) => TaskOutcome::StopAppsWithDna(dna_hash, err, name),
        },
        TaskKind::Generic => TaskOutcome::LogInfo(name),
    }
}

/// Map one completed task to the supervisor's reaction: success is only
/// logged, failure is handled per the task's policy. The reaction of a
/// `Generic` task comes from its registrant's own callback, which runs
/// outside the supervisor, so no caller holds that kind here.
pub fn handle_completed_task(kind: &TaskKind, result: ManagedTaskResult, name: String) -> (r:
    TaskOutcome)
    requires
        !(*kind is Generic),
    ensures
        r == spec_handle_completed_task(*kind, result, name),
{
    match kind {
        TaskKind::Ignore => match result {
            Ok(_) => TaskOutcome::LogInfo(name),
            Err(err) => TaskOutcome::MinorError(err, name),
        },
        TaskKind::Unrecoverable => match result {
            Ok(_) => TaskOutcome::LogInfo(name),
            Err(err) => TaskOutcome::ShutdownConductor(err, name),
        },
        TaskKind::CellCritical(cell_id) => match result {
            Ok(_) => TaskOutcome::LogInfo(name),
            Err(err) => TaskOutcome::StopApps(*cell_id, err, name),
        },
        TaskKind::DnaCritical(dna_hash) => match result {
            Ok(_) => TaskOutcome::LogInfo(name),
            Err(err) => TaskOutcome::StopAppsWithDna(*dna_hash, err, name),
        },
        TaskKind::Generic => {
            proof {
                assert(false);
            }
            TaskOutcome::LogInfo(name)
        },
    }
}

/// Which applications a critical failure restricts.
#[derive(Clone, Copy, PartialEq, Eq, Debug)]
pub enum AppScope {
    Cell(CellId),
    Dna(DnaHash),
}

/// What happens to the applications in scope: a recoverable failure
/// pauses them, an unrecoverable one disables them with the error text as
/// the recorded reason.
#[derive(Clone, PartialEq, Eq, Debug)]
pub enum AppAction {
    Pause,
    Disable(String),
}

/// One application restriction the host must carry out.
#[derive(Clone, PartialEq, Eq, Debug)]
pub struct AppRestriction {
    pub scope: AppScope,
    pub action: AppAction,
    pub context: String,
}

/// What the run loop does after processing one completion.
#[derive(Clone, PartialEq, Eq, Debug)]
pub enum RunDirective {
    /// Keep draining registrations and completions.
    Continue,
    /// Leave the run loop with the unrecoverable error.
    ShutdownNode(TaskError),
    /// Restrict the applications in scope, then keep running.
    RestrictApps(AppRestriction),
}

/// Why the supervisor's run loop ended.
#[derive(Clone, PartialEq, Eq, Debug)]
pub enum TaskManagerError {
    /// Every registration sender was dropped before a first task arrived.
    TaskManagerFailedToStart,
    /// A task with the shutdown policy failed.
    Unrecoverable(TaskError),
}

/// The run loop's reaction to one completion outcome.
pub open spec fn spec_completion_directive(outcome: TaskOutcome) -> RunDirective {
    match outcome {
        TaskOutcome::NewTask(_) => RunDirective::Continue,
        TaskOutcome::LogInfo(_) => RunDirective::Continue,
        TaskOutcome::MinorError(_, _) => RunDirective::Continue,
        TaskOutcome::ShutdownConductor(err, _) => RunDirective::ShutdownNode(err),
        TaskOutcome::StopApps(cell_id, err, context) => RunDirective::RestrictApps(
            AppRestriction {
                scope: AppScope::Cell(cell_id),
                action: if err.recoverable {
                    AppAction::Pause
                } else {
                    AppAction::Disable(err.text)
                },
                context,
            },
        ),
        TaskOutcome::StopAppsWithDna(dna_hash, err, context) => RunDirective::RestrictApps(
            AppRestriction {
                scope: AppScope::Dna(dna_hash),
                action: if err.recoverable {
                    AppAction::Pause
                } else {
                    AppAction::Disable(err.text)
                },
                context,
            },
        ),
    }
}

/// The active set after one completion: the completed task leaves, and a
/// replacement registered by the outcome joins at the back.
pub open spec fn spec_tasks_after(
    tasks: Seq<ManagedTaskAdd>,
    index: int,
    outcome: TaskOutcome,
) -> Seq<ManagedTaskAdd> {
    match outcome {
        TaskOutcome::NewTask(task) => tasks.remove(index).push(task),
        _ => tasks.remove(index),
    }
}

/// React to one completion outcome: the directive the run loop follows,
/// and the replacement task the outcome registers, if any.
pub fn completion_directive(outcome: TaskOutcome) -> (r: (RunDirective, Option<ManagedTaskAdd>))
    ensures
        r.0 == spec_completion_directive(outcome),
        r.1 == (match outcome {
            TaskOutcome::NewTask(task) => Some(task),
            _ => None::<ManagedTaskAdd>,
        }),
{
    match outcome {
        TaskOutcome::NewTask(task) => (RunDirective::Continue, Some(task)),
        TaskOutcome::LogInfo(_) => (RunDirective::Continue, None),
        TaskOutcome::MinorError(_, _) => (RunDirective::Continue, None),
        TaskOutcome::ShutdownConductor(err, _) => (RunDirective::ShutdownNode(err), None),
        TaskOutcome::StopApps(cell_id, err, context) => {
            let action = if err.recoverable {
                AppAction::Pause
            } else {
                AppAction::Disable(err.text)
            };
            (
                RunDirective::RestrictApps(
                    AppRestriction { scope: AppScope::Cell(cell_id), action, context },
                ),
                None,
            )
        },
        TaskOutcome::StopAppsWithDna(dna_hash, err, context) => {
            let action = if err.recoverable {
                AppAction::Pause
            } else {
                AppAction::Disable(err.text)
            };
            (
                RunDirective::RestrictApps(
                    AppRestriction { scope: AppScope::Dna(dna_hash), action, context },
                ),
                None,
            )
        },
    }
}

/// The supervisor: the set of in-flight task descriptors whose futures
/// the runtime is polling collectively.
pub struct TaskManager {
    pub tasks: Vec<ManagedTaskAdd>,
}

impl TaskManager {
    pub fn new() -> (m: TaskManager)
        ensures
            m.tasks@.len() == 0,
    {
        TaskManager { tasks: Vec::new() }
    }

    /// Seed the run loop with the first registered task. The completion
    /// stream signals emptiness as exhaustion, so the loop must start with
    /// at least one live task; if every registration sender was dropped
    /// before one arrived, the loop ends with a start-up error instead of
    /// hanging.
    pub fn start(&mut self, first_task: Option<ManagedTaskAdd>) -> (r: Result<
        (),
        TaskManagerError,
    >)
        requires
            old(self).tasks@.len() == 0,
        ensures
            match first_task {
                Some(task) => r is Ok && final(self).tasks@ == old(self).tasks@.push(task),
                None => r == Err::<(), TaskManagerError>(
                    TaskManagerError::TaskManagerFailedToStart,
                ) && final(self).tasks@ == old(self).tasks@,
            },
    {
        match first_task {
            Some(task) => {
                self.tasks.push(task);
                Ok(())
            },
            None => Err(TaskManagerError::TaskManagerFailedToStart),
        }
    }

    /// Register one more task with the running supervisor.
    pub fn add_task(&mut self, task: ManagedTaskAdd)
        ensures
            final(self).tasks@ == old(self).tasks@.push(task),
    {
        self.tasks.push(task);
    }

    /// May the completion stream still yield? It runs dry exactly when
    /// the active set is empty, and the run loop then ends normally.
    pub fn has_live_tasks(&self) -> (r: bool)
        ensures
            r == (self.tasks@.len() > 0),
    {
        self.tasks.len() > 0
    }

    /// Process the completion of the task at `index`, whose outcome —
    /// from the fixed table, or from a `Generic` task's own callback —
    /// is `outcome`. The completed task leaves the active set; a
    /// replacement the outcome registers joins it in the same step, and
    /// the returned directive says what the run loop does next.
    pub fn handle_task_completion(&mut self, index: usize, outcome: TaskOutcome) -> (d:
        RunDirective)
        requires
            index < old(self).tasks@.len(),
        ensures
            final(self).tasks@ == spec_tasks_after(old(self).tasks@, index as int, outcome),
            d == spec_completion_directive(outcome),
    {
        let _completed = self.tasks.remove(index);
        let (directive, respawned) = completion_directive(outcome);
        match respawned {
            Some(task) => self.tasks.push(task),
            None => {},
        }
        directive
    }
}

/// Critical-failure recovery: a cell-critical task that fails with a
/// recoverable error pauses the applications on that cell; with an
/// unrecoverable error they are disabled, with the error text as the
/// recorded reason.
pub proof fn lemma_cell_critical_recovery(cell_id: CellId, error: TaskError, name: String)
    ensures
        error.recoverable ==> spec_completion_directive(
            spec_handle_completed_task(TaskKind::CellCritical(cell_id), Err(error), name),
        ) == RunDirective::RestrictApps(
            AppRestriction {
                scope: AppScope::Cell(cell_id),
                action: AppAction::Pause,
                context: name,
            },
        ),
        !error.recoverable ==> spec_completion_directive(
            spec_handle_completed_task(TaskKind::CellCritical(cell_id), Err(error), name),
        ) == RunDirective::RestrictApps(
            AppRestriction {
                scope: AppScope::Cell(cell_id),
                action: AppAction::Disable(error.text),
                context: name,
            },
        ),
{
}

/// The same recovery split for a task critical to one application
/// definition.
pub proof fn lemma_dna_critical_recovery(dna_hash: DnaHash, error: TaskError, name: String)
    ensures
        error.recoverable ==> spec_completion_directive(
            spec_handle_completed_task(TaskKind::DnaCritical(dna_hash), Err(error), name),
        ) == RunDirective::RestrictApps(
            AppRestriction {
                scope: AppScope::Dna(dna_hash),
                action: AppAction::Pause,
                context: name,
            },
        ),
        !error.recoverable ==> spec_completion_directive(
            spec_handle_completed_task(TaskKind::DnaCritical(dna_hash), Err(error), name),
        ) == RunDirective::RestrictApps(
            AppRestriction {
                scope: AppScope::Dna(dna_hash),
                action: AppAction::Disable(error.text),
                context: name,
            },
        ),
{
}

/// Run-loop liveness: while the permanent placeholder sits in the active
/// set, processing any other task's completion can never end the loop —
/// only a shutdown outcome leaves it, every other directive continues,
/// and the set stays non-empty so the completion stream never runs dry.
pub proof fn lemma_supervisor_liveness(
    tasks: Seq<ManagedTaskAdd>,
    index: int,
    outcome: TaskOutcome,
    placeholder: int,
)
    requires
        0 <= index < tasks.len(),
        0 <= placeholder < tasks.len(),
        placeholder != index,
        !(outcome is ShutdownConductor),
    ensures
        !(spec_completion_directive(outcome) is ShutdownNode),
        spec_tasks_after(tasks, index, outcome).len() >= 1,
        spec_tasks_after(tasks, index, outcome).contains(tasks[placeholder]),
{
    let after = spec_tasks_after(tasks, index, outcome);
    let removed = tasks.remove(index);
    if placeholder < index {
        assert(removed[placeholder] == tasks[placeholder]);
    } else {
        assert(removed[placeholder - 1] == tasks[placeholder]);
    }
    match outcome {
        TaskOutcome::NewTask(task) => {
            assert(forall|j: int| 0 <= j < removed.len() ==> after[j] == removed[j]);
        },
        _ => {},
    }
    assert(removed.contains(tasks[placeholder]));
    assert(after.contains(tasks[placeholder]));
}

/// Self-healing: a completion whose outcome registers a replacement task
/// leaves no supervision gap — the replacement is in the active set the
/// moment the completed task leaves it, the set is as large as before,
/// and the loop continues.
pub proof fn lemma_self_healing_no_gap(
    tasks: Seq<ManagedTaskAdd>,
    index: int,
    task: ManagedTaskAdd,
)
    requires
        0 <= index < tasks.len(),
    ensures
        spec_tasks_after(tasks, index, TaskOutcome::NewTask(task)).len() == tasks.len(),
        spec_tasks_after(tasks, index, TaskOutcome::NewTask(task)).last() == task,
        spec_completion_directive(TaskOutcome::NewTask(task)) == RunDirective::Continue,
{
}

} // verus!
