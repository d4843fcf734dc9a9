use vstd::prelude::*;
use vstd::string::StringExecFns;

verus! {

/// Relies on uuid::Uuid::new_v4 for a fresh random version-4 UUID, taken as
/// its 128-bit value with Uuid::as_u128. Nothing is assumed of the result.
#[verifier::external_body]
pub(crate) fn random_id() -> u128 {
    uuid::Uuid::new_v4().as_u128()
}

/// Which tasks a listing should show.
#[derive(Debug, Clone, Copy, PartialEq, Eq, Structural)]
pub enum TodoListFilter {
    Completed,
    Active,
    All,
}

/// A bulk action over every task: mark all completed, or mark all active.
#[derive(Debug, Clone, Copy, PartialEq, Eq, Structural)]
pub enum TodoToggleAction {
    Uncheck,
    Check,
}

/// One to-do item. Identity is the `id`; `created_at` is assigned once at
/// creation and never changes; `text` and `is_completed` are mutable.
#[derive(Debug)]
pub struct Todo {
    pub is_completed: bool,
    pub created_at: u64,
    pub text: String,
    pub id: u128,
}

impl Todo {
    /// A task as it starts life: not completed, with the given text and
    /// creation stamp, under a randomly drawn identifier. The store's
    /// `create` is what guarantees an identifier unique among stored tasks.
    pub fn new(text: String, created_at: u64) -> (r: Self)
        ensures
            r.is_completed == false,
            r.text == text,
            r.created_at == created_at,
    {
        Todo { is_completed: false, created_at, text, id: random_id() }
    }
}

impl TodoListFilter {
    /// The filter's name, as the transport layer renders it.
    pub fn label(&self) -> (r: String)
        ensures
            *self == TodoListFilter::Completed ==> r@ == "Completed"@,
            *self == TodoListFilter::Active ==> r@ == "Active"@,
            *self == TodoListFilter::All ==> r@ == "All"@,
    {
        match self {
            TodoListFilter::Completed => String::from_str("Completed"),
            TodoListFilter::Active => String::from_str("Active"),
            TodoListFilter::All => String::from_str("All"),
        }
    }
}

impl TodoToggleAction {
    /// The action's name, as the transport layer renders it.
    pub fn label(&self) -> (r: String)
        ensures
            *self == TodoToggleAction::Uncheck ==> r@ == "Uncheck"@,
            *self == TodoToggleAction::Check ==> r@ == "Check"@,
    {
        match self {
            TodoToggleAction::Uncheck => String::from_str("Uncheck"),
            TodoToggleAction::Check => String::from_str("Check"),
        }
    }
}

impl Clone for Todo {
    fn clone(&self) -> (r: Self)
        ensures
            r == *self,
    {
        Todo {
            is_completed: self.is_completed,
            created_at: self.created_at,
            text: self.text.clone(),
            id: self.id,
        }
    }
}

impl PartialEq for Todo {
    fn eq(&self, other: &Self) -> (r: bool) {
        self.is_completed == other.is_completed && self.created_at == other.created_at
            && self.id == other.id && self.text == other.text
    }
}

impl vstd::std_specs::cmp::PartialEqSpecImpl for Todo {
    open spec fn obeys_eq_spec() -> bool {
        true
    }

    open spec fn eq_spec(&self, other: &Self) -> bool {
        self.is_completed == other.is_completed && self.created_at == other.created_at
            && self.id == other.id && self.text@ == other.text@
    }
}

} // verus!
