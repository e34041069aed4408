use akispace::launcher::{
    is_launcher_task, launch_poll_continues, launch_result, launch_task_plan, to_variant_bool,
    LaunchError, TaskStep,
};

fn describe(plan: &[TaskStep]) -> Vec<String> {
    plan.iter()
        .map(|t| match t {
            TaskStep::SetPath(s) => format!("path {s}"),
            TaskStep::SetArguments(s) => format!("args {s}"),
            TaskStep::SetHidden(v) => format!("hidden {v}"),
            TaskStep::SetDeleteExpiredTaskAfter(s) => format!("expire {s}"),
            TaskStep::Register(s) => format!("register {s}"),
            TaskStep::RunInSession(id) => format!("run {id}"),
            TaskStep::Delete(s) => format!("delete {s}"),
        })
        .collect()
}

#[test]
fn launch_plan_registers_hidden_task_and_deletes_it() {
    let plan = launch_task_plan("AkiSpace_Launch_x", "C:\\app.exe", "--flag", 3);
    assert_eq!(
        describe(&plan),
        vec![
            "path C:\\app.exe",
            "args --flag",
            "hidden -1",
            "expire PT60S",
            "register AkiSpace_Launch_x",
            "run 3",
            "delete AkiSpace_Launch_x",
        ]
    );
    let bare = launch_task_plan("t", "app.exe", "", 1);
    assert_eq!(describe(&bare)[..2], ["path app.exe".to_string(), "hidden -1".to_string()]);
    assert_eq!(bare.len(), 6);
}

#[test]
fn leftover_tasks_are_recognised() {
    assert!(is_launcher_task("AkiSpace_Launch_0123"));
    assert!(!is_launcher_task("Other_Launch"));
}

#[test]
fn launch_outcomes() {
    assert!(launch_poll_continues(1800));
    assert!(!launch_poll_continues(2000));
    assert_eq!(launch_result(0), Err(LaunchError::TimedOut));
    assert_eq!(launch_result(1234), Ok(1234));
    assert_eq!(to_variant_bool(true), -1);
    assert_eq!(to_variant_bool(false), 0);
}
