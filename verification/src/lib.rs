use vstd::prelude::*;

pub mod models;
pub mod repository;
pub mod seq_facts;

use crate::models::{Todo, TodoListFilter, TodoToggleAction};
use crate::repository::{
    has_id, index_of_id, spec_create_ok, spec_delete_completed_ok, spec_delete_ok, spec_list,
    spec_toggle_ok, spec_update_ok, spec_updated, TodoRepo, TodoRepoError,
};

verus! {

/// The application-level error: the store's failure, carried through to the
/// transport layer, which renders it as a "not found" reply.
#[derive(Debug, PartialEq, Eq, Structural)]
pub enum AppError {
    TodoRepo(TodoRepoError),
}

impl From<TodoRepoError> for AppError {
    fn from(v: TodoRepoError) -> (r: Self)
        ensures
            r == AppError::TodoRepo(v),
    {
        AppError::TodoRepo(v)
    }
}

impl vstd::std_specs::convert::FromSpecImpl<TodoRepoError> for AppError {
    open spec fn obeys_from_spec() -> bool {
        true
    }

    open spec fn from_spec(v: TodoRepoError) -> Self {
        AppError::TodoRepo(v)
    }
}

/// Everything one client session holds: the store, the filter the client
/// last selected, and which bulk action the toggle button offers next.
#[derive(Debug)]
pub struct AppState {
    pub selected_filter: TodoListFilter,
    pub toggle_action: TodoToggleAction,
    pub todo_repo: TodoRepo,
}

impl Default for AppState {
    /// The session at process start: an empty store, showing all tasks,
    /// with the bulk toggle offering `Check`.
    fn default() -> (r: Self)
        ensures
            r.todo_repo.wf(),
            r.selected_filter == TodoListFilter::All,
            r.toggle_action == TodoToggleAction::Check,
            r.todo_repo.items@ == Seq::<Todo>::empty(),
            r.todo_repo.num_completed_items == 0,
            r.todo_repo.num_active_items == 0,
            r.todo_repo.num_all_items == 0,
            r.todo_repo.next_created_at == 0,
    {
        AppState {
            selected_filter: TodoListFilter::All,
            toggle_action: TodoToggleAction::Check,
            todo_repo: TodoRepo::default(),
        }
    }
}

/// The bulk-toggle button state after the button is pressed: it offers the
/// other action next.
pub open spec fn spec_flipped(action: TodoToggleAction) -> TodoToggleAction {
    match action {
        TodoToggleAction::Uncheck => TodoToggleAction::Check,
        TodoToggleAction::Check => TodoToggleAction::Uncheck,
    }
}

/// Whether the row for a freshly updated task is rendered under the
/// client's selected filter.
pub open spec fn spec_visible_after_update(filter: TodoListFilter, t: Todo) -> Option<Todo> {
    match filter {
        TodoListFilter::Active => if t.is_completed {
            None
        } else {
            Some(t)
        },
        TodoListFilter::All => Some(t),
        TodoListFilter::Completed => if t.is_completed {
            Some(t)
        } else {
            None
        },
    }
}

/// What a listing request renders: the matching tasks and the counter strip.
#[derive(Debug)]
pub struct ListTodosResponse {
    pub num_completed_items: u32,
    pub num_active_items: u32,
    pub num_all_items: u32,
    pub is_disabled_delete: bool,
    pub is_disabled_toggle: bool,
    pub action: TodoToggleAction,
    pub items: Vec<Todo>,
}

/// What a bulk-toggle request renders.
#[derive(Debug)]
pub struct ToggleCompletedTodosResponse {
    pub num_completed_items: u32,
    pub num_active_items: u32,
    pub num_all_items: u32,
    pub is_disabled_delete: bool,
    pub is_disabled_toggle: bool,
    pub action: TodoToggleAction,
    pub items: Vec<Todo>,
}

/// What a bulk-delete request renders.
#[derive(Debug)]
pub struct DeletedCompletedTodosResponse {
    pub num_completed_items: u32,
    pub num_active_items: u32,
    pub num_all_items: u32,
    pub is_disabled_delete: bool,
    pub is_disabled_toggle: bool,
    pub action: TodoToggleAction,
    pub items: Vec<Todo>,
}

/// What an edit request renders: the task to put in the edit form.
#[derive(Debug)]
pub struct EditTodoResponse {
    pub item: Todo,
}

/// What an update request renders: the counter strip and, when the task is
/// still visible under the selected filter, its refreshed row.
#[derive(Debug)]
pub struct UpdateTodoResponse {
    pub num_completed_items: u32,
    pub num_active_items: u32,
    pub num_all_items: u32,
    pub is_disabled_delete: bool,
    pub is_disabled_toggle: bool,
    pub action: TodoToggleAction,
    pub item: Option<Todo>,
}

/// What a delete request renders: the counter strip alone.
#[derive(Debug)]
pub struct DeleteTodoResponse {
    pub num_completed_items: u32,
    pub num_active_items: u32,
    pub num_all_items: u32,
    pub is_disabled_delete: bool,
    pub is_disabled_toggle: bool,
    pub action: TodoToggleAction,
}

/// What a create request renders: the counter strip and, unless the client
/// is looking at completed tasks only, the new row.
#[derive(Debug)]
pub struct CreateTodoResponse {
    pub num_completed_items: u32,
    pub num_active_items: u32,
    pub num_all_items: u32,
    pub is_disabled_delete: bool,
    pub is_disabled_toggle: bool,
    pub action: TodoToggleAction,
    pub item: Option<Todo>,
}

/// Remember the selected filter and render the matching tasks with the
/// current counters. The store itself is untouched.
pub fn list_todos(state: &mut AppState, filter: TodoListFilter) -> (r: ListTodosResponse)
    requires
        old(state).todo_repo.wf(),
    ensures
        final(state).todo_repo == old(state).todo_repo,
        final(state).toggle_action == old(state).toggle_action,
        final(state).selected_filter == filter,
        r.items@ == spec_list(old(state).todo_repo.items@, filter),
        r.num_completed_items == old(state).todo_repo.num_completed_items,
        r.num_active_items == old(state).todo_repo.num_active_items,
        r.num_all_items == old(state).todo_repo.num_all_items,
        r.is_disabled_delete == (old(state).todo_repo.num_completed_items == 0),
        r.is_disabled_toggle == (old(state).todo_repo.num_all_items == 0),
        r.action == old(state).toggle_action,
{
    state.selected_filter = filter;
    let items = state.todo_repo.list(&filter);
    ListTodosResponse {
        num_completed_items: state.todo_repo.num_completed_items,
        num_active_items: state.todo_repo.num_active_items,
        num_all_items: state.todo_repo.num_all_items,
        is_disabled_delete: state.todo_repo.num_completed_items == 0,
        is_disabled_toggle: state.todo_repo.num_all_items == 0,
        action: state.toggle_action,
        items,
    }
}

/// Apply the bulk action to every task, flip the button to offer the other
/// action, and render the listing under the selected filter.
pub fn toggle_completed_todos(state: &mut AppState, action: TodoToggleAction) -> (r:
    ToggleCompletedTodosResponse)
    requires
        old(state).todo_repo.wf(),
    ensures
        final(state).todo_repo.wf(),
        spec_toggle_ok(old(state).todo_repo, final(state).todo_repo, action),
        final(state).selected_filter == old(state).selected_filter,
        final(state).toggle_action == spec_flipped(action),
        r.items@ == spec_list(final(state).todo_repo.items@, old(state).selected_filter),
        r.num_completed_items == final(state).todo_repo.num_completed_items,
        r.num_active_items == final(state).todo_repo.num_active_items,
        r.num_all_items == final(state).todo_repo.num_all_items,
        r.is_disabled_delete == (final(state).todo_repo.num_completed_items == 0),
        r.is_disabled_toggle == (final(state).todo_repo.num_all_items == 0),
        r.action == spec_flipped(action),
{
    state.toggle_action = match action {
        TodoToggleAction::Uncheck => TodoToggleAction::Check,
        TodoToggleAction::Check => TodoToggleAction::Uncheck,
    };
    state.todo_repo.toggle_completed(&action);
    let items = state.todo_repo.list(&state.selected_filter);
    ToggleCompletedTodosResponse {
        num_completed_items: state.todo_repo.num_completed_items,
        num_active_items: state.todo_repo.num_active_items,
        num_all_items: state.todo_repo.num_all_items,
        is_disabled_delete: state.todo_repo.num_completed_items == 0,
        is_disabled_toggle: state.todo_repo.num_all_items == 0,
        action: state.toggle_action,
        items,
    }
}

/// Drop every completed task, reset the bulk toggle to offer `Check`, and
/// render the listing under the selected filter.
pub fn delete_completed_todos(state: &mut AppState) -> (r: DeletedCompletedTodosResponse)
    requires
        old(state).todo_repo.wf(),
    ensures
        final(state).todo_repo.wf(),
        spec_delete_completed_ok(old(state).todo_repo, final(state).todo_repo),
        final(state).selected_filter == old(state).selected_filter,
        final(state).toggle_action == TodoToggleAction::Check,
        r.items@ == spec_list(final(state).todo_repo.items@, old(state).selected_filter),
        r.num_completed_items == 0,
        r.num_active_items == final(state).todo_repo.num_active_items,
        r.num_all_items == final(state).todo_repo.num_all_items,
        r.is_disabled_delete == true,
        r.is_disabled_toggle == (final(state).todo_repo.num_all_items == 0),
        r.action == TodoToggleAction::Check,
{
    state.todo_repo.delete_completed();
    state.toggle_action = TodoToggleAction::Check;
    let items = state.todo_repo.list(&state.selected_filter);
    DeletedCompletedTodosResponse {
        num_completed_items: state.todo_repo.num_completed_items,
        num_active_items: state.todo_repo.num_active_items,
        num_all_items: state.todo_repo.num_all_items,
        is_disabled_delete: true,
        is_disabled_toggle: state.todo_repo.num_all_items == 0,
        action: state.toggle_action,
        items,
    }
}

/// Fetch the task to put in the edit form; `NotFound` when the identifier
/// does not resolve. No state changes.
pub fn edit_todo(state: &AppState, id: &u128) -> (r: Result<EditTodoResponse, AppError>)
    requires
        state.todo_repo.wf(),
    ensures
        match r {
            Ok(resp) => has_id(state.todo_repo.items@, *id) && resp.item
                == state.todo_repo.items@[index_of_id(state.todo_repo.items@, *id)],
            Err(e) => e == AppError::TodoRepo(TodoRepoError::NotFound) && !has_id(
                state.todo_repo.items@,
                *id,
            ),
        },
{
    match state.todo_repo.get(id) {
        Ok(item) => Ok(EditTodoResponse { item }),
        Err(e) => Err(AppError::TodoRepo(e)),
    }
}

/// Rewrite a task, retarget the bulk toggle (offer `Uncheck` exactly when
/// everything is now completed), and render the counter strip plus the
/// task's row when it stays visible under the selected filter.
pub fn update_todo(
    state: &mut AppState,
    id: &u128,
    text: Option<String>,
    is_completed: Option<bool>,
) -> (r: Result<UpdateTodoResponse, AppError>)
    requires
        old(state).todo_repo.wf(),
    ensures
        final(state).todo_repo.wf(),
        final(state).selected_filter == old(state).selected_filter,
        match r {
            Ok(resp) => {
                let i = index_of_id(old(state).todo_repo.items@, *id);
                let t = spec_updated(old(state).todo_repo.items@[i], text, is_completed);
                &&& spec_update_ok(
                    old(state).todo_repo,
                    final(state).todo_repo,
                    *id,
                    text,
                    is_completed,
                    t,
                )
                &&& final(state).toggle_action == (if final(state).todo_repo.num_completed_items
                    == final(state).todo_repo.num_all_items {
                    TodoToggleAction::Uncheck
                } else {
                    TodoToggleAction::Check
                })
                &&& resp.item == spec_visible_after_update(old(state).selected_filter, t)
                &&& resp.num_completed_items == final(state).todo_repo.num_completed_items
                &&& resp.num_active_items == final(state).todo_repo.num_active_items
                &&& resp.num_all_items == final(state).todo_repo.num_all_items
                &&& resp.is_disabled_delete == (final(state).todo_repo.num_completed_items == 0)
                &&& resp.is_disabled_toggle == (final(state).todo_repo.num_all_items == 0)
                &&& resp.action == final(state).toggle_action
            },
            Err(e) => {
                &&& e == AppError::TodoRepo(TodoRepoError::NotFound)
                &&& !has_id(old(state).todo_repo.items@, *id)
                &&& *final(state) == *old(state)
            },
        },
{
    let item = match state.todo_repo.update(id, text, is_completed) {
        Ok(item) => item,
        Err(e) => {
            return Err(AppError::TodoRepo(e));
        },
    };
    state.toggle_action = if state.todo_repo.num_completed_items
        == state.todo_repo.num_all_items {
        TodoToggleAction::Uncheck
    } else {
        TodoToggleAction::Check
    };
    let visible = match state.selected_filter {
        TodoListFilter::Active => if item.is_completed {
            None
        } else {
            Some(item)
        },
        TodoListFilter::All => Some(item),
        TodoListFilter::Completed => if item.is_completed {
            Some(item)
        } else {
            None
        },
    };
    Ok(
        UpdateTodoResponse {
            num_completed_items: state.todo_repo.num_completed_items,
            num_active_items: state.todo_repo.num_active_items,
            num_all_items: state.todo_repo.num_all_items,
            is_disabled_delete: state.todo_repo.num_completed_items == 0,
            is_disabled_toggle: state.todo_repo.num_all_items == 0,
            action: state.toggle_action,
            item: visible,
        },
    )
}

/// Remove a task, retarget the bulk toggle (offer `Check` again when the
/// store emptied), and render the counter strip.
pub fn delete_todo(state: &mut AppState, id: &u128) -> (r: Result<DeleteTodoResponse, AppError>)
    requires
        old(state).todo_repo.wf(),
    ensures
        final(state).todo_repo.wf(),
        final(state).selected_filter == old(state).selected_filter,
        match r {
            Ok(resp) => {
                &&& spec_delete_ok(old(state).todo_repo, final(state).todo_repo, *id)
                &&& final(state).toggle_action == (if final(state).todo_repo.num_all_items == 0 {
                    TodoToggleAction::Check
                } else {
                    TodoToggleAction::Uncheck
                })
                &&& resp.num_completed_items == final(state).todo_repo.num_completed_items
                &&& resp.num_active_items == final(state).todo_repo.num_active_items
                &&& resp.num_all_items == final(state).todo_repo.num_all_items
                &&& resp.is_disabled_delete == (final(state).todo_repo.num_completed_items == 0)
                &&& resp.is_disabled_toggle == (final(state).todo_repo.num_all_items == 0)
                &&& resp.action == final(state).toggle_action
            },
            Err(e) => {
                &&& e == AppError::TodoRepo(TodoRepoError::NotFound)
                &&& !has_id(old(state).todo_repo.items@, *id)
                &&& *final(state) == *old(state)
            },
        },
{
    match state.todo_repo.delete(id) {
        Ok(_) => {},
        Err(e) => {
            return Err(AppError::TodoRepo(e));
        },
    }
    state.toggle_action = if state.todo_repo.num_all_items == 0 {
        TodoToggleAction::Check
    } else {
        TodoToggleAction::Uncheck
    };
    Ok(
        DeleteTodoResponse {
            num_completed_items: state.todo_repo.num_completed_items,
            num_active_items: state.todo_repo.num_active_items,
            num_all_items: state.todo_repo.num_all_items,
            is_disabled_delete: state.todo_repo.num_completed_items == 0,
            is_disabled_toggle: state.todo_repo.num_all_items == 0,
            action: state.toggle_action,
        },
    )
}

/// Create a task from the given text, reset the bulk toggle to offer
/// `Check`, and render the counter strip plus the new row unless the client
/// is looking at completed tasks only.
pub fn create_todo(state: &mut AppState, text: String) -> (r: CreateTodoResponse)
    requires
        old(state).todo_repo.wf(),
        old(state).todo_repo.num_all_items < u32::MAX,
        old(state).todo_repo.next_created_at < u64::MAX,
    ensures
        final(state).todo_repo.wf(),
        final(state).selected_filter == old(state).selected_filter,
        final(state).toggle_action == TodoToggleAction::Check,
        match r.item {
            Some(t) => old(state).selected_filter != TodoListFilter::Completed && spec_create_ok(
                old(state).todo_repo,
                final(state).todo_repo,
                text,
                t,
            ),
            None => old(state).selected_filter == TodoListFilter::Completed && exists|t: Todo|
                spec_create_ok(old(state).todo_repo, final(state).todo_repo, text, t),
        },
        r.num_completed_items == final(state).todo_repo.num_completed_items,
        r.num_active_items == final(state).todo_repo.num_active_items,
        r.num_all_items == final(state).todo_repo.num_all_items,
        r.is_disabled_delete == (final(state).todo_repo.num_completed_items == 0),
        r.is_disabled_toggle == (final(state).todo_repo.num_all_items == 0),
        r.action == TodoToggleAction::Check,
{
    let item = state.todo_repo.create(text);
    let visible = if matches!(state.selected_filter, TodoListFilter::Completed) {
        None
    } else {
        Some(item)
    };
    state.toggle_action = TodoToggleAction::Check;
    CreateTodoResponse {
        num_completed_items: state.todo_repo.num_completed_items,
        num_active_items: state.todo_repo.num_active_items,
        num_all_items: state.todo_repo.num_all_items,
        is_disabled_delete: state.todo_repo.num_completed_items == 0,
        is_disabled_toggle: state.todo_repo.num_all_items == 0,
        action: state.toggle_action,
        item: visible,
    }
}

} // verus!
