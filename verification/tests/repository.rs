use todo_store::models::{Todo, TodoListFilter, TodoToggleAction};
use todo_store::repository::{TodoRepo, TodoRepoError};

fn random_missing_id() -> u128 {
    uuid::Uuid::new_v4().as_u128()
}

#[test]
fn test_get_non_existing_todo() {
    let repo = TodoRepo::default();

    let result_todo = repo.get(&random_missing_id());

    assert_eq!(result_todo, Err(TodoRepoError::NotFound));
}

#[test]
fn test_get_existing_todo() {
    let mut repo = TodoRepo::default();
    let todo = repo.create("Teste".to_string());

    assert_eq!(Ok(todo.clone()), repo.get(&todo.id));
}

#[test]
fn test_list_repo_empty() {
    let repo = TodoRepo::default();
    let empty_list: Vec<Todo> = Vec::new();

    let result_completed = repo.list(&TodoListFilter::Completed);
    let result_active = repo.list(&TodoListFilter::Active);
    let result_all = repo.list(&TodoListFilter::All);

    assert_eq!(empty_list, result_completed);
    assert_eq!(empty_list, result_active);
    assert_eq!(empty_list, result_all);
}

#[test]
fn test_list_filled_repo_active() {
    let mut repo = TodoRepo::default();
    let mut filled = vec![
        repo.create("Task A".to_string()),
        repo.create("Task B".to_string()),
        repo.create("Task C".to_string()),
    ];

    filled.reverse();

    assert_eq!(filled, repo.list(&TodoListFilter::Active));
    assert_eq!(Vec::<Todo>::new(), repo.list(&TodoListFilter::Completed));
}

#[test]
fn test_list_filled_repo_complete() {
    let mut repo = TodoRepo::default();
    let mut filled = vec![
        repo.create("Task A".to_string()),
        repo.create("Task B".to_string()),
        repo.create("Task C".to_string()),
    ];
    filled.reverse();

    for t in filled.iter_mut() {
        let _ = repo.update(&t.id, None, Some(true));
        t.is_completed = true;
    }

    assert_eq!(filled, repo.list(&TodoListFilter::Completed));
    assert_eq!(Vec::<Todo>::new(), repo.list(&TodoListFilter::Active));
    assert_eq!(
        repo.list(&TodoListFilter::All),
        repo.list(&TodoListFilter::Completed)
    );
}

#[test]
fn test_repo_propreties() {
    let mut repo = TodoRepo::default();
    let mut todos = vec![
        repo.create("Task A".to_string()),
        repo.create("Task B".to_string()),
    ];
    todos.reverse();

    assert_eq!(todos, repo.list(&TodoListFilter::All));
    assert_eq!(todos, repo.list(&TodoListFilter::Active));
    assert_eq!(Vec::<Todo>::new(), repo.list(&TodoListFilter::Completed));
    assert_eq!(2, repo.num_all_items);
    assert_eq!(0, repo.num_completed_items);
    assert_eq!(2, repo.num_active_items);
}

#[test]
fn test_delete_non_existing_todo() {
    let mut repo = TodoRepo::default();

    let delete_todo = repo.delete(&random_missing_id());
    assert_eq!(delete_todo, Err(TodoRepoError::NotFound));
}

#[test]
fn test_delete_one_todo() {
    let mut repo = TodoRepo::default();
    let todo = repo.create("Task A".to_string());

    let result = repo.delete(&todo.id);
    assert_eq!(result, Ok(()));
    assert_eq!(0, repo.num_all_items);
}

#[test]
fn test_update_non_existing_todo() {
    let mut repo = TodoRepo::default();
    let result = repo.update(&random_missing_id(), Some("Task A".into()), None);

    assert_eq!(result, Err(TodoRepoError::NotFound));
}

#[test]
fn test_update_one_existing_todo() {
    let mut repo = TodoRepo::default();
    let old_todo = repo.create("Task A".to_string());
    let new_todo = repo
        .update(&old_todo.id, Some("Task AB".into()), None)
        .unwrap();

    assert_ne!(old_todo, new_todo);
}

#[test]
fn test_update_is_completed_true_existing_todo() {
    let mut repo = TodoRepo::default();

    let todo = repo.create("Task A".to_string());
    let result = repo.update(&todo.id, None, Some(true)).unwrap();

    assert_eq!(1, repo.num_completed_items);
    assert_eq!(0, repo.num_active_items);
    assert_eq!(1, repo.num_all_items);
    assert!(result.is_completed);
}

#[test]
fn test_update_is_completed_false_existing_todo() {
    let mut repo = TodoRepo::default();

    let todo = repo.create("Task A".to_string());
    let result = repo.update(&todo.id, None, Some(true)).unwrap();
    assert!(result.is_completed);

    let result = repo.update(&todo.id, None, Some(false)).unwrap();

    assert_eq!(0, repo.num_completed_items);
    assert_eq!(1, repo.num_active_items);
    assert_eq!(1, repo.num_all_items);
    assert!(!result.is_completed);
}

#[test]
fn test_delete_completed_todos() {
    let mut repo = TodoRepo::default();
    let task_a = repo.create("Task A".to_string());
    let task_b = repo.create("Task B".to_string());
    let task_c = repo.create("Task C".to_string());

    let _task_a = repo.update(&task_a.id, None, Some(true)).unwrap();
    let _task_c = repo.update(&task_c.id, None, Some(true)).unwrap();

    repo.delete_completed();
    assert_eq!(0, repo.num_completed_items);
    assert_eq!(1, repo.num_all_items);
    assert_eq!(1, repo.num_active_items);
    assert_eq!(vec![task_b.clone()], repo.list(&TodoListFilter::All));
}

fn counters_agree(repo: &TodoRepo) -> bool {
    repo.num_active_items + repo.num_completed_items == repo.num_all_items
        && repo.num_all_items as usize == repo.items.len()
}

#[test]
fn scenario_three_creates_lists_newest_first() {
    let mut repo = TodoRepo::default();
    let a = repo.create("Task A".to_string());
    let b = repo.create("Task B".to_string());
    let c = repo.create("Task C".to_string());

    let active = repo.list(&TodoListFilter::Active);
    assert_eq!(vec![c.clone(), b.clone(), a.clone()], active);
    assert_eq!(3, repo.num_all_items);
    assert_eq!(3, repo.num_active_items);
    assert_eq!(0, repo.num_completed_items);
    assert!(counters_agree(&repo));
}

#[test]
fn scenario_complete_one_of_three() {
    let mut repo = TodoRepo::default();
    let a = repo.create("Task A".to_string());
    let b = repo.create("Task B".to_string());
    let c = repo.create("Task C".to_string());

    let b_done = repo.update(&b.id, None, Some(true)).unwrap();

    assert_eq!(1, repo.num_completed_items);
    assert_eq!(2, repo.num_active_items);
    assert_eq!(vec![b_done.clone()], repo.list(&TodoListFilter::Completed));
    assert_eq!(
        vec![c.clone(), a.clone()],
        repo.list(&TodoListFilter::Active)
    );
    assert!(counters_agree(&repo));
}

#[test]
fn scenario_delete_completed_keeps_the_active_two() {
    let mut repo = TodoRepo::default();
    let a = repo.create("Task A".to_string());
    let b = repo.create("Task B".to_string());
    let c = repo.create("Task C".to_string());

    let _ = repo.update(&b.id, None, Some(true)).unwrap();
    repo.delete_completed();

    assert_eq!(
        vec![c.clone(), a.clone()],
        repo.list(&TodoListFilter::All)
    );
    assert_eq!(2, repo.num_all_items);
    assert_eq!(0, repo.num_completed_items);
    assert_eq!(2, repo.num_active_items);
    assert!(counters_agree(&repo));
}

#[test]
fn toggle_check_completes_every_task() {
    let mut repo = TodoRepo::default();
    let _a = repo.create("Task A".to_string());
    let b = repo.create("Task B".to_string());
    let _c = repo.create("Task C".to_string());
    let _ = repo.update(&b.id, None, Some(true)).unwrap();

    repo.toggle_completed(&TodoToggleAction::Check);

    assert_eq!(3, repo.num_completed_items);
    assert_eq!(0, repo.num_active_items);
    assert_eq!(3, repo.num_all_items);
    for t in repo.list(&TodoListFilter::All) {
        assert!(t.is_completed);
    }
    assert!(counters_agree(&repo));
}

#[test]
fn toggle_uncheck_reactivates_every_task() {
    let mut repo = TodoRepo::default();
    let _a = repo.create("Task A".to_string());
    let _b = repo.create("Task B".to_string());
    repo.toggle_completed(&TodoToggleAction::Check);

    repo.toggle_completed(&TodoToggleAction::Uncheck);

    assert_eq!(0, repo.num_completed_items);
    assert_eq!(2, repo.num_active_items);
    for t in repo.list(&TodoListFilter::All) {
        assert!(!t.is_completed);
    }
}

#[test]
fn toggle_on_empty_store_is_a_noop() {
    let mut repo = TodoRepo::default();
    repo.toggle_completed(&TodoToggleAction::Check);
    assert_eq!(0, repo.num_all_items);
    assert_eq!(0, repo.num_completed_items);
    assert_eq!(0, repo.num_active_items);
}

#[test]
fn update_with_no_fields_returns_current_task() {
    let mut repo = TodoRepo::default();
    let todo = repo.create("Task A".to_string());

    let same = repo.update(&todo.id, None, None).unwrap();

    assert_eq!(todo, same);
    assert_eq!(1, repo.num_active_items);
    assert_eq!(0, repo.num_completed_items);
}

#[test]
fn update_completed_twice_moves_counter_once() {
    let mut repo = TodoRepo::default();
    let todo = repo.create("Task A".to_string());

    let _ = repo.update(&todo.id, None, Some(true)).unwrap();
    let first = repo.num_completed_items;
    let _ = repo.update(&todo.id, None, Some(true)).unwrap();

    assert_eq!(1, first);
    assert_eq!(1, repo.num_completed_items);
    assert_eq!(0, repo.num_active_items);
}

#[test]
fn update_accepts_empty_text_verbatim() {
    let mut repo = TodoRepo::default();
    let todo = repo.create("Task A".to_string());

    let renamed = repo.update(&todo.id, Some(String::new()), None).unwrap();

    assert_eq!("", renamed.text);
    assert_eq!(Ok(renamed), repo.get(&todo.id));
}

#[test]
fn create_accepts_empty_text() {
    let mut repo = TodoRepo::default();
    let todo = repo.create(String::new());

    assert_eq!("", todo.text);
    assert!(!todo.is_completed);
    assert_eq!(1, repo.num_all_items);
    assert_eq!(1, repo.num_active_items);
}

#[test]
fn delete_completed_on_empty_store_is_a_noop() {
    let mut repo = TodoRepo::default();
    repo.delete_completed();
    assert_eq!(0, repo.num_all_items);
    assert_eq!(Vec::<Todo>::new(), repo.list(&TodoListFilter::All));
}

#[test]
fn delete_twice_reports_not_found() {
    let mut repo = TodoRepo::default();
    let todo = repo.create("Task A".to_string());

    assert_eq!(Ok(()), repo.delete(&todo.id));
    assert_eq!(Err(TodoRepoError::NotFound), repo.delete(&todo.id));
    assert_eq!(Err(TodoRepoError::NotFound), repo.get(&todo.id));
    assert_eq!(0, repo.num_all_items);
}

#[test]
fn missing_id_leaves_counters_unchanged() {
    let mut repo = TodoRepo::default();
    let _ = repo.create("Task A".to_string());
    let missing = random_missing_id();

    assert_eq!(Err(TodoRepoError::NotFound), repo.get(&missing));
    assert_eq!(
        Err(TodoRepoError::NotFound),
        repo.update(&missing, Some("x".to_string()), Some(true))
    );
    assert_eq!(Err(TodoRepoError::NotFound), repo.delete(&missing));
    assert_eq!(1, repo.num_all_items);
    assert_eq!(1, repo.num_active_items);
    assert_eq!(0, repo.num_completed_items);
}

#[test]
fn list_all_is_active_plus_completed() {
    let mut repo = TodoRepo::default();
    let _a = repo.create("Task A".to_string());
    let b = repo.create("Task B".to_string());
    let _c = repo.create("Task C".to_string());
    let _ = repo.update(&b.id, None, Some(true)).unwrap();

    let all = repo.list(&TodoListFilter::All);
    let active = repo.list(&TodoListFilter::Active);
    let completed = repo.list(&TodoListFilter::Completed);

    assert_eq!(all.len(), active.len() + completed.len());
    for t in &all {
        let part = if t.is_completed { &completed } else { &active };
        assert!(part.contains(t));
    }
    let mut newest_first = all.clone();
    newest_first.sort_by(|x, y| y.created_at.cmp(&x.created_at));
    assert_eq!(newest_first, all);
}

#[test]
fn created_tasks_have_distinct_ids_and_stamps() {
    let mut repo = TodoRepo::default();
    let a = repo.create("Task A".to_string());
    let b = repo.create("Task B".to_string());
    let c = repo.create("Task C".to_string());

    assert_ne!(a.id, b.id);
    assert_ne!(b.id, c.id);
    assert_ne!(a.id, c.id);
    assert!(a.created_at < b.created_at);
    assert!(b.created_at < c.created_at);
}
