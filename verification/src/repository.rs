use vstd::prelude::*;
use vstd::pervasive::VecAdditionalExecFns;

use crate::models::{random_id, Todo, TodoListFilter, TodoToggleAction};
use crate::seq_facts::{
    lemma_filter_all, lemma_filter_complement_len, lemma_filter_complement_multiset,
    lemma_filter_none, lemma_filter_remove_len, lemma_filter_singleton, lemma_filter_update_len,
};

verus! {

/// The sole error kind: an identifier that does not resolve to a stored task.
#[derive(Debug, PartialEq, Eq, Structural)]
pub enum TodoRepoError {
    NotFound,
}

/// An in-memory task store: the tasks themselves, newest first, plus three
/// running counters that always agree with the tasks' completion flags.
///
/// `next_created_at` is the store's clock: a strictly increasing stamp handed
/// to each new task, so that listings ordered by creation time are exact.
#[derive(Debug)]
pub struct TodoRepo {
    pub num_completed_items: u32,
    pub num_active_items: u32,
    pub num_all_items: u32,
    pub items: Vec<Todo>,
    pub next_created_at: u64,
}

/// The predicate a completed task satisfies.
pub open spec fn completed_pred() -> spec_fn(Todo) -> bool {
    |t: Todo| t.is_completed
}

/// The predicate an active (not completed) task satisfies.
pub open spec fn active_pred() -> spec_fn(Todo) -> bool {
    |t: Todo| !t.is_completed
}

/// How many of the tasks are completed.
pub open spec fn completed_count(s: Seq<Todo>) -> nat {
    s.filter(completed_pred()).len()
}

/// How many of the tasks are active.
pub open spec fn active_count(s: Seq<Todo>) -> nat {
    s.filter(active_pred()).len()
}

/// Whether some task in `s` carries the identifier `id`.
pub open spec fn has_id(s: Seq<Todo>, id: u128) -> bool {
    exists|i: int| 0 <= i < s.len() && s[i].id == id
}

/// The position of the task carrying `id`; meaningful only when `has_id`
/// holds, and unique when the identifiers are distinct.
pub open spec fn index_of_id(s: Seq<Todo>, id: u128) -> int {
    choose|i: int| 0 <= i < s.len() && s[i].id == id
}

/// No two tasks share an identifier.
pub open spec fn uniq_ids(s: Seq<Todo>) -> bool {
    forall|i: int, j: int| 0 <= i < j < s.len() ==> s[i].id != s[j].id
}

/// Creation stamps strictly decrease from front to back: newest first.
pub open spec fn stamps_desc(s: Seq<Todo>) -> bool {
    forall|i: int, j: int| 0 <= i < j < s.len() ==> s[i].created_at > s[j].created_at
}

/// The task as `update` rewrites it: each supplied field replaces the old
/// one; identity and creation stamp never change.
pub open spec fn spec_updated(t: Todo, text: Option<String>, is_completed: Option<bool>) -> Todo {
    Todo {
        is_completed: match is_completed {
            Some(c) => c,
            None => t.is_completed,
        },
        created_at: t.created_at,
        text: match text {
            Some(s) => s,
            None => t.text,
        },
        id: t.id,
    }
}

/// How `update` moves the completed counter: one up on a flip to completed,
/// one down on a flip to active, zero when the flag is absent or unchanged.
pub open spec fn completed_delta(t: Todo, is_completed: Option<bool>) -> int {
    match is_completed {
        Some(c) => if c == t.is_completed {
            0
        } else if c {
            1
        } else {
            -1
        },
        None => 0,
    }
}

/// The task as a bulk toggle rewrites it: the flag is overwritten
/// unconditionally, everything else is kept.
pub open spec fn spec_toggled(t: Todo, action: TodoToggleAction) -> Todo {
    Todo {
        is_completed: action == TodoToggleAction::Check,
        created_at: t.created_at,
        text: t.text,
        id: t.id,
    }
}

/// What a listing under `filter` holds: the tasks that match, in store order.
pub open spec fn spec_list(s: Seq<Todo>, filter: TodoListFilter) -> Seq<Todo> {
    match filter {
        TodoListFilter::All => s,
        TodoListFilter::Active => s.filter(active_pred()),
        TodoListFilter::Completed => s.filter(completed_pred()),
    }
}

/// The successful `create` transition from `pre` to `post`, returning `r`:
/// the new task is active, carries a fresh identifier and the clock stamp,
/// and goes in front; the active and total counters rise by one.
pub open spec fn spec_create_ok(pre: TodoRepo, post: TodoRepo, text: String, r: Todo) -> bool {
    &&& post.items@ == seq![r] + pre.items@
    &&& !has_id(pre.items@, r.id)
    &&& r.is_completed == false
    &&& r.text == text
    &&& r.created_at == pre.next_created_at
    &&& post.num_all_items == pre.num_all_items + 1
    &&& post.num_active_items == pre.num_active_items + 1
    &&& post.num_completed_items == pre.num_completed_items
    &&& post.next_created_at == pre.next_created_at + 1
}

/// The successful `update` transition from `pre` to `post`, returning `t`:
/// the task carrying `id` is rewritten in place and the completed and
/// active counters move by the flip's delta, in opposite directions.
pub open spec fn spec_update_ok(
    pre: TodoRepo,
    post: TodoRepo,
    id: u128,
    text: Option<String>,
    is_completed: Option<bool>,
    t: Todo,
) -> bool {
    let i = index_of_id(pre.items@, id);
    &&& has_id(pre.items@, id)
    &&& t == spec_updated(pre.items@[i], text, is_completed)
    &&& post.items@ == pre.items@.update(i, t)
    &&& post.num_all_items == pre.num_all_items
    &&& post.num_completed_items == pre.num_completed_items + completed_delta(
        pre.items@[i],
        is_completed,
    )
    &&& post.num_active_items == pre.num_active_items - completed_delta(
        pre.items@[i],
        is_completed,
    )
    &&& post.next_created_at == pre.next_created_at
}

/// The successful `delete` transition from `pre` to `post`: the task
/// carrying `id` leaves, the total counter falls by one, and the counter of
/// the removed task's kind falls with it.
pub open spec fn spec_delete_ok(pre: TodoRepo, post: TodoRepo, id: u128) -> bool {
    let i = index_of_id(pre.items@, id);
    &&& has_id(pre.items@, id)
    &&& post.items@ == pre.items@.remove(i)
    &&& post.num_all_items == pre.num_all_items - 1
    &&& post.num_completed_items == pre.num_completed_items - (if pre.items@[i].is_completed {
        1int
    } else {
        0int
    })
    &&& post.num_active_items == pre.num_active_items - (if pre.items@[i].is_completed {
        0int
    } else {
        1int
    })
    &&& post.next_created_at == pre.next_created_at
}

/// The `delete_completed` transition from `pre` to `post`: exactly the
/// active tasks remain, in order; the completed counter is zero and the
/// total counter has fallen by the number removed.
pub open spec fn spec_delete_completed_ok(pre: TodoRepo, post: TodoRepo) -> bool {
    &&& post.items@ == pre.items@.filter(active_pred())
    &&& post.items@ == spec_list(pre.items@, TodoListFilter::Active)
    &&& post.num_completed_items == 0
    &&& post.num_active_items == pre.num_active_items
    &&& post.num_all_items == pre.num_all_items - pre.num_completed_items
    &&& post.next_created_at == pre.next_created_at
}

/// The `toggle_completed` transition from `pre` to `post`: every task's
/// flag is overwritten by the action, nothing else changes, and the
/// counters land in closed form.
pub open spec fn spec_toggle_ok(pre: TodoRepo, post: TodoRepo, action: TodoToggleAction) -> bool {
    &&& post.items@.len() == pre.items@.len()
    &&& forall|i: int|
        0 <= i < pre.items@.len() ==> post.items@[i] == spec_toggled(pre.items@[i], action)
    &&& forall|i: int|
        0 <= i < post.items@.len() ==> ((#[trigger] post.items@[i]).is_completed <==> action
            == TodoToggleAction::Check)
    &&& post.num_all_items == pre.num_all_items
    &&& (action == TodoToggleAction::Check ==> post.num_completed_items == post.num_all_items
        && post.num_active_items == 0)
    &&& (action == TodoToggleAction::Uncheck ==> post.num_active_items == post.num_all_items
        && post.num_completed_items == 0)
    &&& post.next_created_at == pre.next_created_at
}

impl TodoRepo {
    /// The store's invariant: distinct identifiers, stamps strictly
    /// descending and below the store clock, and the three counters in
    /// agreement with the tasks' actual completion flags.
    pub open spec fn wf(self) -> bool {
        &&& uniq_ids(self.items@)
        &&& stamps_desc(self.items@)
        &&& forall|i: int|
            0 <= i < self.items@.len() ==> #[trigger] self.items@[i].created_at
                < self.next_created_at
        &&& self.num_all_items == self.items@.len()
        &&& self.num_completed_items == completed_count(self.items@)
        &&& self.num_active_items == active_count(self.items@)
    }

    /// Look up a task by identifier; a copy of the stored task, or
    /// `NotFound` when the identifier is absent. No side effects.
    pub fn get(&self, id: &u128) -> (r: Result<Todo, TodoRepoError>)
        requires
            self.wf(),
        ensures
            match r {
                Ok(t) => has_id(self.items@, *id) && t == self.items@[index_of_id(
                    self.items@,
                    *id,
                )],
                Err(e) => e == TodoRepoError::NotFound && !has_id(self.items@, *id),
            },
    {
        match self.find_index(id) {
            Some(i) => {
                let t = self.items[i].clone();
                proof {
                    lemma_index_of_id(self.items@, *id, i as int);
                }
                Ok(t)
            },
            None => Err(TodoRepoError::NotFound),
        }
    }

    /// Whether some stored task carries `id`.
    fn contains_id(&self, id: u128) -> (r: bool)
        ensures
            r == has_id(self.items@, id),
    {
        match self.find_index(&id) {
            Some(i) => {
                proof {
                    assert(self.items@[i as int].id == id);
                }
                true
            },
            None => false,
        }
    }

    /// An identifier no stored task carries: the random draw when it is
    /// free (the overwhelmingly common case), else the smallest free small
    /// integer, which the pigeonhole argument shows must exist.
    fn fresh_id(&self) -> (r: u128)
        requires
            uniq_ids(self.items@),
            self.items@.len() < usize::MAX,
        ensures
            !has_id(self.items@, r),
    {
        let candidate = random_id();
        if !self.contains_id(candidate) {
            return candidate;
        }
        let n = self.items.len();
        let mut k: usize = 0;
        while k <= n
            invariant
                uniq_ids(self.items@),
                n == self.items@.len(),
                n < usize::MAX,
                k <= n + 1,
                forall|x: u128| x < k ==> has_id(self.items@, x),
            decreases n + 1 - k,
        {
            let c = k as u128;
            if !self.contains_id(c) {
                return c;
            }
            k = k + 1;
        }
        proof {
            lemma_small_ids_need_len(self.items@, (n + 1) as nat);
        }
        vstd::pervasive::unreached()
    }

    /// Create a task with the given text: not completed, stamped with the
    /// store's clock, under an identifier no other task carries. The new
    /// task goes in front (newest first); the active and total counters
    /// rise by one. Total for every store that has room for one more task.
    pub fn create(&mut self, text: String) -> (r: Todo)
        requires
            old(self).wf(),
            old(self).num_all_items < u32::MAX,
            old(self).next_created_at < u64::MAX,
        ensures
            final(self).wf(),
            spec_create_ok(*old(self), *final(self), text, r),
    {
        let id = self.fresh_id();
        let todo = Todo { is_completed: false, created_at: self.next_created_at, text, id };
        let r = todo.clone();
        self.items.insert(0, todo);
        self.next_created_at = self.next_created_at + 1;
        self.num_active_items = self.num_active_items + 1;
        self.num_all_items = self.num_all_items + 1;
        proof {
            broadcast use vstd::seq_lib::group_seq_lib_default;

            let prev = old(self).items@;
            assert(self.items@ =~= seq![r] + prev);
            lemma_filter_singleton(r, completed_pred());
            lemma_filter_singleton(r, active_pred());
            assert(seq![r].filter(completed_pred()) + prev.filter(completed_pred()) =~= prev.filter(
                completed_pred(),
            ));
            assert(forall|j: int| 0 <= j < prev.len() ==> #[trigger] prev[j].id != r.id);
        }
        r
    }

    /// Rewrite the task carrying `id`: any subset of text and completion
    /// flag may be supplied, including neither (a no-op that still returns
    /// the current task). A completion flag equal to the current one moves
    /// no counter; an actual flip moves the completed and active counters
    /// by one in opposite directions. Fails with `NotFound`, leaving the
    /// store untouched, exactly when `id` is absent.
    pub fn update(&mut self, id: &u128, text: Option<String>, is_completed: Option<bool>) -> (r:
        Result<Todo, TodoRepoError>)
        requires
            old(self).wf(),
        ensures
            final(self).wf(),
            match r {
                Ok(t) => spec_update_ok(*old(self), *final(self), *id, text, is_completed, t),
                Err(e) => {
                    &&& e == TodoRepoError::NotFound
                    &&& !has_id(old(self).items@, *id)
                    &&& *final(self) == *old(self)
                },
            },
    {
        let i = match self.find_index(id) {
            Some(i) => i,
            None => {
                return Err(TodoRepoError::NotFound);
            },
        };
        proof {
            lemma_index_of_id(self.items@, *id, i as int);
            broadcast use vstd::seq_lib::group_seq_lib_default;

            lemma_filter_complement_len(self.items@, completed_pred(), active_pred());
        }
        let was = self.items[i].is_completed;
        let new_completed = match is_completed {
            Some(c) => c,
            None => was,
        };
        if new_completed != was {
            proof {
                broadcast use vstd::seq_lib::group_seq_lib_default;

                let prev = self.items@;
                let i_ = i as int;
                if new_completed {
                    assert(active_pred()(prev[i_]));
                    assert(prev.filter(active_pred()).contains(prev[i_]));
                } else {
                    assert(completed_pred()(prev[i_]));
                    assert(prev.filter(completed_pred()).contains(prev[i_]));
                }
            }
            if new_completed {
                self.num_completed_items = self.num_completed_items + 1;
                self.num_active_items = self.num_active_items - 1;
            } else {
                self.num_completed_items = self.num_completed_items - 1;
                self.num_active_items = self.num_active_items + 1;
            }
        }
        let new_text = match text {
            Some(s) => s,
            None => self.items[i].text.clone(),
        };
        let t2 = Todo {
            is_completed: new_completed,
            created_at: self.items[i].created_at,
            text: new_text,
            id: self.items[i].id,
        };
        let r = t2.clone();
        self.items.set(i, t2);
        proof {
            broadcast use vstd::seq_lib::group_seq_lib_default;

            let prev = old(self).items@;
            let i_ = i as int;
            lemma_filter_update_len(prev, i_, r, completed_pred());
            lemma_filter_update_len(prev, i_, r, active_pred());
            assert(self.items@ == prev.update(i_, r));
            assert forall|a: int, b: int|
                0 <= a < b < self.items@.len() implies self.items@[a].id
                != self.items@[b].id by {
                assert(prev[a].id != prev[b].id);
            }
            assert forall|a: int, b: int|
                0 <= a < b < self.items@.len() implies self.items@[a].created_at
                > self.items@[b].created_at by {
                assert(prev[a].created_at > prev[b].created_at);
            }
            assert forall|a: int|
                0 <= a < self.items@.len() implies #[trigger] self.items@[a].created_at
                < self.next_created_at by {
                assert(prev[a].created_at < self.next_created_at);
            }
        }
        Ok(r)
    }

    /// Remove the task carrying `id`. The total counter falls by one, and
    /// the completed or active counter falls by one according to the
    /// removed task's flag. Fails with `NotFound`, leaving the store
    /// untouched, exactly when `id` is absent.
    pub fn delete(&mut self, id: &u128) -> (r: Result<(), TodoRepoError>)
        requires
            old(self).wf(),
        ensures
            final(self).wf(),
            match r {
                Ok(u) => spec_delete_ok(*old(self), *final(self), *id),
                Err(e) => {
                    &&& e == TodoRepoError::NotFound
                    &&& !has_id(old(self).items@, *id)
                    &&& *final(self) == *old(self)
                },
            },
    {
        let i = match self.find_index(id) {
            Some(i) => i,
            None => {
                return Err(TodoRepoError::NotFound);
            },
        };
        proof {
            lemma_index_of_id(self.items@, *id, i as int);
            broadcast use vstd::seq_lib::group_seq_lib_default;

            let prev = self.items@;
            let i_ = i as int;
            if prev[i_].is_completed {
                assert(completed_pred()(prev[i_]));
                assert(prev.filter(completed_pred()).contains(prev[i_]));
            } else {
                assert(active_pred()(prev[i_]));
                assert(prev.filter(active_pred()).contains(prev[i_]));
            }
        }
        let was = self.items[i].is_completed;
        let _removed = self.items.remove(i);
        self.num_all_items = self.num_all_items - 1;
        if was {
            self.num_completed_items = self.num_completed_items - 1;
        } else {
            self.num_active_items = self.num_active_items - 1;
        }
        proof {
            let prev = old(self).items@;
            let i_ = i as int;
            lemma_filter_remove_len(prev, i_, completed_pred());
            lemma_filter_remove_len(prev, i_, active_pred());
            assert(self.items@ == prev.remove(i_));
            assert forall|a: int, b: int|
                0 <= a < b < self.items@.len() implies self.items@[a].id
                != self.items@[b].id by {
                let a0 = if a < i_ {
                    a
                } else {
                    a + 1
                };
                let b0 = if b < i_ {
                    b
                } else {
                    b + 1
                };
                assert(self.items@[a] == prev[a0]);
                assert(self.items@[b] == prev[b0]);
            }
            assert forall|a: int, b: int|
                0 <= a < b < self.items@.len() implies self.items@[a].created_at
                > self.items@[b].created_at by {
                let a0 = if a < i_ {
                    a
                } else {
                    a + 1
                };
                let b0 = if b < i_ {
                    b
                } else {
                    b + 1
                };
                assert(self.items@[a] == prev[a0]);
                assert(self.items@[b] == prev[b0]);
            }
            assert forall|a: int|
                0 <= a < self.items@.len() implies #[trigger] self.items@[a].created_at
                < self.next_created_at by {
                let a0 = if a < i_ {
                    a
                } else {
                    a + 1
                };
                assert(self.items@[a] == prev[a0]);
            }
        }
        Ok(())
    }

    /// Remove every completed task. Always succeeds: an empty store or one
    /// with no completed task is a no-op. Afterwards the completed counter
    /// is zero, the active tasks are untouched and keep their order, and
    /// the total counter has fallen by exactly the number removed.
    pub fn delete_completed(&mut self)
        requires
            old(self).wf(),
        ensures
            final(self).wf(),
            spec_delete_completed_ok(*old(self), *final(self)),
    {
        proof {
            lemma_filter_complement_len(self.items@, completed_pred(), active_pred());
        }
        let mut kept: Vec<Todo> = Vec::new();
        let mut i: usize = 0;
        while i < self.items.len()
            invariant
                i <= self.items@.len(),
                kept@ == self.items@.take(i as int).filter(active_pred()),
            decreases self.items@.len() - i,
        {
            if !self.items[i].is_completed {
                kept.push(self.items[i].clone());
            }
            proof {
                reveal(Seq::filter);
                let pre = self.items@.take(i as int);
                let now = self.items@.take(i as int + 1);
                assert(now.drop_last() =~= pre);
                assert(now.last() == self.items@[i as int]);
            }
            i = i + 1;
        }
        proof {
            assert(self.items@.take(self.items@.len() as int) =~= self.items@);
        }
        self.items = kept;
        self.num_all_items = self.num_all_items - self.num_completed_items;
        self.num_completed_items = 0;
        proof {
            broadcast use vstd::seq_lib::group_seq_lib_default;

            let prev = old(self).items@;
            let f = prev.filter(active_pred());
            lemma_filter_keeps_order(prev, active_pred());
            lemma_filter_all(f, active_pred());
            lemma_filter_none(f, completed_pred());
            assert forall|a: int|
                0 <= a < f.len() implies #[trigger] f[a].created_at < self.next_created_at by {
                assert(prev.contains(f[a]));
                let w = choose|w: int| 0 <= w < prev.len() && prev[w] == f[a];
                assert(prev[w].created_at < self.next_created_at);
            }
        }
    }

    /// Overwrite every task's flag: completed under `Check`, active under
    /// `Uncheck`, regardless of prior state. The counters move in closed
    /// form: all completed and none active, or the reverse.
    pub fn toggle_completed(&mut self, action: &TodoToggleAction)
        requires
            old(self).wf(),
        ensures
            final(self).wf(),
            spec_toggle_ok(*old(self), *final(self), *action),
    {
        let is_completed: bool = match action {
            TodoToggleAction::Check => {
                self.num_active_items = 0;
                self.num_completed_items = self.num_all_items;
                true
            },
            TodoToggleAction::Uncheck => {
                self.num_completed_items = 0;
                self.num_active_items = self.num_all_items;
                false
            },
        };
        let mut i: usize = 0;
        while i < self.items.len()
            invariant
                i <= self.items@.len(),
                self.items@.len() == old(self).items@.len(),
                is_completed == (*action == TodoToggleAction::Check),
                self.next_created_at == old(self).next_created_at,
                self.num_all_items == old(self).num_all_items,
                is_completed ==> self.num_completed_items == self.num_all_items
                    && self.num_active_items == 0,
                !is_completed ==> self.num_active_items == self.num_all_items
                    && self.num_completed_items == 0,
                forall|j: int|
                    0 <= j < i ==> self.items@[j] == spec_toggled(old(self).items@[j], *action),
                forall|j: int| i <= j < self.items@.len() ==> self.items@[j] == old(self).items@[j],
            decreases self.items@.len() - i,
        {
            let t = Todo {
                is_completed,
                created_at: self.items[i].created_at,
                text: self.items[i].text.clone(),
                id: self.items[i].id,
            };
            self.items.set(i, t);
            i = i + 1;
        }
        proof {
            let cur = self.items@;
            if is_completed {
                assert forall|j: int| 0 <= j < cur.len() implies completed_pred()(
                    #[trigger] cur[j],
                ) by {}
                lemma_filter_all(cur, completed_pred());
                lemma_filter_none(cur, active_pred());
            } else {
                assert forall|j: int| 0 <= j < cur.len() implies active_pred()(
                    #[trigger] cur[j],
                ) by {}
                lemma_filter_all(cur, active_pred());
                lemma_filter_none(cur, completed_pred());
            }
            assert forall|a: int, b: int|
                0 <= a < b < cur.len() implies cur[a].id != cur[b].id && cur[a].created_at
                > cur[b].created_at by {
                assert(old(self).items@[a].id != old(self).items@[b].id);
                assert(old(self).items@[a].created_at > old(self).items@[b].created_at);
            }
            assert forall|a: int|
                0 <= a < cur.len() implies #[trigger] cur[a].created_at
                < self.next_created_at by {
                assert(old(self).items@[a].created_at < self.next_created_at);
            }
        }
    }

    /// Every task matching the filter, newest first. Returns copies; the
    /// store is untouched. An empty result is a valid outcome.
    pub fn list(&self, filter: &TodoListFilter) -> (r: Vec<Todo>)
        requires
            self.wf(),
        ensures
            r@ == spec_list(self.items@, *filter),
            stamps_desc(r@),
    {
        let mut out: Vec<Todo> = Vec::new();
        let mut i: usize = 0;
        while i < self.items.len()
            invariant
                i <= self.items@.len(),
                out@ == spec_list(self.items@.take(i as int), *filter),
            decreases self.items@.len() - i,
        {
            let keep = match filter {
                TodoListFilter::All => true,
                TodoListFilter::Completed => self.items[i].is_completed,
                TodoListFilter::Active => !self.items[i].is_completed,
            };
            if keep {
                out.push(self.items[i].clone());
            }
            proof {
                reveal(Seq::filter);
                let pre = self.items@.take(i as int);
                let now = self.items@.take(i as int + 1);
                assert(now.drop_last() =~= pre);
                assert(now.last() == self.items@[i as int]);
            }
            i = i + 1;
        }
        proof {
            assert(self.items@.take(self.items@.len() as int) =~= self.items@);
            lemma_filter_keeps_order(self.items@, active_pred());
            lemma_filter_keeps_order(self.items@, completed_pred());
        }
        out
    }

    /// The position of the task carrying `id`, if any.
    fn find_index(&self, id: &u128) -> (r: Option<usize>)
        ensures
            match r {
                Some(i) => 0 <= i < self.items@.len() && self.items@[i as int].id == *id,
                None => !has_id(self.items@, *id),
            },
    {
        let mut i: usize = 0;
        while i < self.items.len()
            invariant
                i <= self.items@.len(),
                forall|j: int| 0 <= j < i ==> self.items@[j].id != *id,
            decreases self.items@.len() - i,
        {
            if self.items[i].id == *id {
                return Some(i);
            }
            i = i + 1;
        }
        None
    }
}

/// A sequence of tasks with distinct identifiers that carries every
/// identifier below `m` holds at least `m` tasks.
proof fn lemma_small_ids_need_len(s: Seq<Todo>, m: nat)
    requires
        uniq_ids(s),
        m <= u128::MAX as nat + 1,
        forall|k: u128| k < m ==> has_id(s, k),
    ensures
        s.len() >= m,
    decreases m,
{
    if m > 0 {
        let kk = (m - 1) as u128;
        assert(has_id(s, kk));
        let i = choose|i: int| 0 <= i < s.len() && s[i].id == kk;
        let s2 = s.remove(i);
        assert forall|a: int, b: int| 0 <= a < b < s2.len() implies s2[a].id != s2[b].id by {
            let a0 = if a < i {
                a
            } else {
                a + 1
            };
            let b0 = if b < i {
                b
            } else {
                b + 1
            };
            assert(s2[a] == s[a0]);
            assert(s2[b] == s[b0]);
        }
        assert forall|k: u128| k < ((m - 1) as nat) implies has_id(s2, k) by {
            assert(has_id(s, k));
            let w = choose|w: int| 0 <= w < s.len() && s[w].id == k;
            assert(s[i].id == kk && k != kk);
            if w < i {
                assert(s2[w] == s[w]);
                assert(s2[w].id == k);
            } else {
                assert(s2[w - 1] == s[w]);
                assert(s2[w - 1].id == k);
            }
        }
        lemma_small_ids_need_len(s2, (m - 1) as nat);
    }
}

/// A filter of a well-ordered task sequence keeps the order: the tasks it
/// returns still have distinct identifiers and strictly descending stamps,
/// and each of them is one of the tasks of `s`.
pub proof fn lemma_filter_keeps_order(s: Seq<Todo>, pred: spec_fn(Todo) -> bool)
    requires
        stamps_desc(s),
        uniq_ids(s),
    ensures
        stamps_desc(s.filter(pred)),
        uniq_ids(s.filter(pred)),
        forall|k: int| 0 <= k < s.filter(pred).len() ==> s.contains(#[trigger] s.filter(pred)[k]),
    decreases s.len(),
{
    reveal(Seq::filter);
    if s.len() != 0 {
        let d = s.drop_last();
        lemma_filter_keeps_order(d, pred);
        let fd = d.filter(pred);
        assert forall|k: int| 0 <= k < fd.len() implies s.contains(#[trigger] fd[k]) by {
            assert(d.contains(fd[k]));
            let w = choose|w: int| 0 <= w < d.len() && d[w] == fd[k];
            assert(s[w] == fd[k]);
        }
        if pred(s.last()) {
            let f = fd.push(s.last());
            assert(s.filter(pred) == f);
            assert forall|a: int, b: int|
                0 <= a < b < f.len() implies f[a].created_at > f[b].created_at && f[a].id
                != f[b].id by {
                if b < f.len() - 1 {
                    assert(fd[a].created_at > fd[b].created_at && fd[a].id != fd[b].id);
                } else {
                    assert(f[b] == s.last());
                    assert(d.contains(fd[a]));
                    let w = choose|w: int| 0 <= w < d.len() && d[w] == fd[a];
                    assert(s[w] == fd[a]);
                    assert(s[w].created_at > s[s.len() - 1].created_at);
                    assert(s[w].id != s[s.len() - 1].id);
                }
            }
            assert forall|k: int| 0 <= k < f.len() implies s.contains(#[trigger] f[k]) by {
                if k < f.len() - 1 {
                    assert(s.contains(fd[k]));
                } else {
                    assert(f[k] == s[s.len() - 1]);
                }
            }
        }
    }
}

/// A task found at position `i` is the one `index_of_id` points at, as long
/// as identifiers are distinct.
pub proof fn lemma_index_of_id(s: Seq<Todo>, id: u128, i: int)
    requires
        uniq_ids(s),
        0 <= i < s.len(),
        s[i].id == id,
    ensures
        has_id(s, id),
        index_of_id(s, id) == i,
{
    assert(has_id(s, id));
    let j = index_of_id(s, id);
    assert(0 <= j < s.len() && s[j].id == id);
    if i < j {
        assert(s[i].id != s[j].id);
    } else if j < i {
        assert(s[j].id != s[i].id);
    }
}

/// In every well-formed store the active and completed counters sum to the
/// total counter, which equals the number of stored tasks.
pub proof fn lemma_counters_agree(repo: TodoRepo)
    requires
        repo.wf(),
    ensures
        repo.num_active_items + repo.num_completed_items == repo.num_all_items,
        repo.num_all_items == repo.items@.len(),
{
    lemma_filter_complement_len(repo.items@, active_pred(), completed_pred());
}

/// A task just created is the one a lookup by its identifier finds: once
/// `create` has put `t` in front of tasks none of which carries its id, the
/// store resolves `t.id` to exactly `t`.
pub proof fn lemma_create_then_get(s: Seq<Todo>, t: Todo)
    requires
        !has_id(s, t.id),
    ensures
        has_id(seq![t] + s, t.id),
        index_of_id(seq![t] + s, t.id) == 0,
        (seq![t] + s)[index_of_id(seq![t] + s, t.id)] == t,
{
    let s2 = seq![t] + s;
    assert(s2[0] == t);
    assert(has_id(s2, t.id));
    let j = index_of_id(s2, t.id);
    assert(0 <= j < s2.len() && s2[j].id == t.id);
    if j != 0 {
        assert(s2[j] == s[j - 1]);
        assert(s[j - 1].id == t.id);
        assert(false);
    }
}

/// A listing of all tasks covers exactly the union of the active and the
/// completed listings, each task once; each part is the matching filter of
/// the full listing, so order within each part is preserved.
pub proof fn lemma_list_partition(s: Seq<Todo>)
    ensures
        spec_list(s, TodoListFilter::Active).to_multiset().add(
            spec_list(s, TodoListFilter::Completed).to_multiset(),
        ) == spec_list(s, TodoListFilter::All).to_multiset(),
        spec_list(s, TodoListFilter::Active) == spec_list(s, TodoListFilter::All).filter(
            active_pred(),
        ),
        spec_list(s, TodoListFilter::Completed) == spec_list(s, TodoListFilter::All).filter(
            completed_pred(),
        ),
{
    lemma_filter_complement_multiset(s, active_pred(), completed_pred());
}

/// Marking the same task completed twice moves the completed count once:
/// the first rewrite moves it by its delta, the second is a no-op on both
/// the tasks and the counters.
pub proof fn lemma_update_completed_idempotent(s: Seq<Todo>, i: int)
    requires
        0 <= i < s.len(),
    ensures
        ({
            let no_text = Option::<String>::None;
            let t1 = spec_updated(s[i], no_text, Some(true));
            let s1 = s.update(i, t1);
            &&& completed_count(s1) == completed_count(s) + completed_delta(s[i], Some(true))
            &&& spec_updated(s1[i], no_text, Some(true)) == t1
            &&& s1.update(i, spec_updated(s1[i], no_text, Some(true))) == s1
            &&& completed_delta(s1[i], Some(true)) == 0
        }),
{
    let no_text = Option::<String>::None;
    let t1 = spec_updated(s[i], no_text, Some(true));
    let s1 = s.update(i, t1);
    lemma_filter_update_len(s, i, t1, completed_pred());
    assert(s1[i] == t1);
    assert(s1.update(i, t1) =~= s1);
}

impl Default for TodoRepo {
    /// The store at process start: empty, all counters zero, clock at zero.
    fn default() -> (r: Self)
        ensures
            r.wf(),
            r.items@ == Seq::<Todo>::empty(),
            r.num_completed_items == 0,
            r.num_active_items == 0,
            r.num_all_items == 0,
            r.next_created_at == 0,
    {
        let r = TodoRepo {
            num_completed_items: 0,
            num_active_items: 0,
            num_all_items: 0,
            items: Vec::new(),
            next_created_at: 0,
        };
        proof {
            reveal(Seq::filter);
            assert(r.items@ =~= Seq::<Todo>::empty());
        }
        r
    }
}

} // verus!

