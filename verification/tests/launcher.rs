use akispace::launcher::{new_task_name, TASK_NAME_PREFIX};

#[test]
fn test_task_name_format() {
    let name = new_task_name();
    assert!(name.starts_with(TASK_NAME_PREFIX));
    assert!(name.len() > TASK_NAME_PREFIX.len());
}
