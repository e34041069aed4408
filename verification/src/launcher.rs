//! Launching a program in the child session through a one-shot scheduled task.
use vstd::prelude::*;
use crate::ipc::nonce::{is_lower_hex, random_guid_simple};
use crate::text::{owned, seq_starts_with, starts_with};

verus! {

/// Name prefix of the scheduled tasks this tool creates.
pub const TASK_NAME_PREFIX: &'static str = "AkiSpace_Launch_";
/// Task folder the tasks are registered in.
pub const TASK_FOLDER: &'static str = "\\";
/// Poll period while waiting for the task to run.
pub const POLL_INTERVAL_MS: u64 = 200;
/// How long the launcher waits for the task to run.
pub const MAX_POLL_MS: u64 = 2000;
/// Expiry the task is registered with.
pub const DELETE_EXPIRED_AFTER: &'static str = "PT60S";

/// A fresh task name: the prefix and a random GUID in simple form.
pub fn new_task_name() -> (name: String)
    ensures
        seq_starts_with(name@, TASK_NAME_PREFIX@),
        name@.len() == TASK_NAME_PREFIX@.len() + 32,
        forall|i: int|
            TASK_NAME_PREFIX@.len() <= i < name@.len() ==> is_lower_hex(#[trigger] name@[i]),
{
    let guid = random_guid_simple();
    let mut name = owned(TASK_NAME_PREFIX);
    name.append(guid.as_str());
    proof {
        reveal_strlit("AkiSpace_Launch_");
        assert(name@.subrange(0, TASK_NAME_PREFIX@.len() as int) =~= TASK_NAME_PREFIX@);
        assert forall|i: int|
            TASK_NAME_PREFIX@.len() <= i < name@.len() implies is_lower_hex(#[trigger] name@[i]) by {
            assert(name@[i] == guid@[i - TASK_NAME_PREFIX@.len()]);
        }
    }
    name
}

/// A task left behind by an earlier launch: it carries the launcher's prefix.
pub fn is_launcher_task(name: &str) -> (r: bool)
    ensures
        r == seq_starts_with(name@, TASK_NAME_PREFIX@),
{
    starts_with(name, TASK_NAME_PREFIX)
}

/// Whether the launcher keeps polling the task after `waited_ms`.
pub fn launch_poll_continues(waited_ms: u64) -> (r: bool)
    ensures
        r == (waited_ms < MAX_POLL_MS),
{
    waited_ms < MAX_POLL_MS
}

/// Why a launch failed after the task was started.
#[derive(Debug, Clone, Copy, PartialEq, Eq, Structural)]
pub enum LaunchError {
    /// The task never reported a running process within the wait.
    TimedOut,
}

/// The launched process, from the engine PID the task reported (0: none within the wait).
pub fn launch_result(task_pid: u32) -> (r: Result<u32, LaunchError>)
    ensures
        task_pid == 0 ==> r == Err::<u32, LaunchError>(LaunchError::TimedOut),
        task_pid != 0 ==> r == Ok::<u32, LaunchError>(task_pid),
{
    if task_pid == 0 {
        Err(LaunchError::TimedOut)
    } else {
        Ok(task_pid)
    }
}

/// The COM `VARIANT_BOOL` of a flag: -1 for true, 0 for false.
pub fn to_variant_bool(b: bool) -> (v: i16)
    ensures
        v == if b {
            -1i16
        } else {
            0i16
        },
{
    if b {
        -1
    } else {
        0
    }
}

/// One call a launch makes on the Task Scheduler, in order.
#[derive(Debug, Clone)]
pub enum TaskStep {
    /// The program the task runs.
    SetPath(String),
    /// Its command line.
    SetArguments(String),
    /// The task's hidden flag, as a `VARIANT_BOOL`.
    SetHidden(i16),
    /// How long after expiry the task is deleted.
    SetDeleteExpiredTaskAfter(String),
    /// Registering the task under this name in the root folder.
    Register(String),
    /// Running it in this session; the launcher then waits for its process.
    RunInSession(u32),
    /// Deleting the task of this name once the wait is over, whatever it gave.
    Delete(String),
}

pub enum TaskStepView {
    SetPath(Seq<char>),
    SetArguments(Seq<char>),
    SetHidden(i16),
    SetDeleteExpiredTaskAfter(Seq<char>),
    Register(Seq<char>),
    RunInSession(u32),
    Delete(Seq<char>),
}

pub open spec fn task_step_view(t: TaskStep) -> TaskStepView {
    match t {
        TaskStep::SetPath(s) => TaskStepView::SetPath(s@),
        TaskStep::SetArguments(s) => TaskStepView::SetArguments(s@),
        TaskStep::SetHidden(v) => TaskStepView::SetHidden(v),
        TaskStep::SetDeleteExpiredTaskAfter(s) => TaskStepView::SetDeleteExpiredTaskAfter(s@),
        TaskStep::Register(s) => TaskStepView::Register(s@),
        TaskStep::RunInSession(id) => TaskStepView::RunInSession(id),
        TaskStep::Delete(s) => TaskStepView::Delete(s@),
    }
}

pub open spec fn task_plan_view(plan: Seq<TaskStep>) -> Seq<TaskStepView> {
    plan.map_values(|t: TaskStep| task_step_view(t))
}

/// Every call of a launch, in order: the program, its arguments where there
/// are any, a hidden task deleted 60 s after expiry, registered under `name`,
/// run in `session_id`, and deleted after the wait.
pub open spec fn spec_launch_plan(name: Seq<char>, exe: Seq<char>, args: Seq<char>, session_id: u32) -> Seq<
    TaskStepView,
> {
    let s0 = seq![TaskStepView::SetPath(exe)];
    let s1 = if args.len() == 0 {
        s0
    } else {
        s0.push(TaskStepView::SetArguments(args))
    };
    s1.push(TaskStepView::SetHidden(-1i16)).push(
        TaskStepView::SetDeleteExpiredTaskAfter(DELETE_EXPIRED_AFTER@),
    ).push(TaskStepView::Register(name)).push(TaskStepView::RunInSession(session_id)).push(
        TaskStepView::Delete(name),
    )
}

fn push_step(plan: &mut Vec<TaskStep>, t: TaskStep)
    ensures
        task_plan_view(final(plan)@) == task_plan_view(old(plan)@).push(task_step_view(t)),
{
    let ghost before = plan@;
    plan.push(t);
    proof {
        assert(task_plan_view(plan@) =~= task_plan_view(before).push(task_step_view(t)));
    }
}

/// The Task Scheduler calls that launch `exe` with `args` in `session_id`
/// through a task named `name`.
pub fn launch_task_plan(name: &str, exe: &str, args: &str, session_id: u32) -> (plan: Vec<TaskStep>)
    ensures
        task_plan_view(plan@) == spec_launch_plan(name@, exe@, args@, session_id),
{
    let mut plan: Vec<TaskStep> = Vec::new();
    proof {
        assert(task_plan_view(plan@) =~= Seq::empty());
    }
    push_step(&mut plan, TaskStep::SetPath(owned(exe)));
    if !args.is_empty() {
        push_step(&mut plan, TaskStep::SetArguments(owned(args)));
    }
    push_step(&mut plan, TaskStep::SetHidden(to_variant_bool(true)));
    push_step(&mut plan, TaskStep::SetDeleteExpiredTaskAfter(owned(DELETE_EXPIRED_AFTER)));
    push_step(&mut plan, TaskStep::Register(owned(name)));
    push_step(&mut plan, TaskStep::RunInSession(session_id));
    push_step(&mut plan, TaskStep::Delete(owned(name)));
    proof {
        assert(task_plan_view(plan@) =~= spec_launch_plan(name@, exe@, args@, session_id));
    }
    plan
}

} // verus!
