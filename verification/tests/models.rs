use todo_store::models::{Todo, TodoListFilter, TodoToggleAction};

#[test]
fn new_task_starts_active_with_given_text_and_stamp() {
    let task = Todo::new("Task A".to_string(), 7);
    assert!(!task.is_completed);
    assert_eq!("Task A", task.text);
    assert_eq!(7, task.created_at);
}

#[test]
fn new_tasks_draw_distinct_identifiers() {
    let a = Todo::new("Task A".to_string(), 0);
    let b = Todo::new("Task B".to_string(), 1);
    assert_ne!(a.id, b.id);
}

#[test]
fn task_equality_is_field_by_field() {
    let a = Todo::new("Task A".to_string(), 3);
    let same = a.clone();
    assert_eq!(a, same);

    let mut renamed = a.clone();
    renamed.text = "Task B".to_string();
    assert_ne!(a, renamed);

    let mut done = a.clone();
    done.is_completed = true;
    assert_ne!(a, done);
}

#[test]
fn filter_labels_match_their_names() {
    assert_eq!("Completed", TodoListFilter::Completed.label());
    assert_eq!("Active", TodoListFilter::Active.label());
    assert_eq!("All", TodoListFilter::All.label());
}

#[test]
fn action_labels_match_their_names() {
    assert_eq!("Uncheck", TodoToggleAction::Uncheck.label());
    assert_eq!("Check", TodoToggleAction::Check.label());
}
