//! The persistence boundary: a mathematical model of a todo store's
//! queryable state, and the abstract repository contract that the service
//! layer depends on.
//!
//! The queryable state is a sequence of [`TodoModel`] values ordered newest
//! first, so that `list` is exactly the state itself.

use vstd::prelude::*;

use crate::todo::{CreateModel, Todo, TodoId, TodoModel, TodoStatus, UpdateModel};
use crate::todo::{CreateTodo, UpdateTodo};

verus! {

/// Failure of the storage engine itself. Absence of an entity is never an
/// error: it is reported as `None` or `false`.
#[derive(Debug)]
pub struct StorageError {
    pub message: String,
}

/// Whether some todo in `s` bears the id `id`.
pub open spec fn contains_id(s: Seq<TodoModel>, id: u128) -> bool {
    exists|i: int| 0 <= i < s.len() && s[i].id == id
}

/// The first todo in `s` bearing `id`, if any: what `get` answers.
pub open spec fn get_model(s: Seq<TodoModel>, id: u128) -> Option<TodoModel>
    decreases s.len(),
{
    if s.len() == 0 {
        None
    } else if s[0].id == id {
        Some(s[0])
    } else {
        get_model(s.drop_first(), id)
    }
}

/// The creation timestamp actually written when creation is asked for at
/// clock reading `now`: never earlier than the newest existing todo, so that
/// the newest-first order of the state is also the timestamp order.
pub open spec fn create_time(s: Seq<TodoModel>, now: u64) -> u64 {
    if s.len() > 0 && now < s[0].created_at {
        s[0].created_at
    } else {
        now
    }
}

/// The todo produced by a creation: pending, with both timestamps at `at`.
pub open spec fn new_model(input: CreateModel, id: u128, at: u64) -> TodoModel {
    TodoModel {
        id: id,
        title: input.title,
        description: input.description,
        status: TodoStatus::Pending,
        created_at: at,
        updated_at: at,
    }
}

/// The state after a creation: the new todo stands first.
pub open spec fn create_model(s: Seq<TodoModel>, m: TodoModel) -> Seq<TodoModel> {
    seq![m] + s
}

/// The update timestamp actually written at clock reading `now`: never
/// earlier than the todo's creation.
pub open spec fn update_time(m: TodoModel, now: u64) -> u64 {
    if now < m.created_at {
        m.created_at
    } else {
        now
    }
}

/// The overlay of a partial update on one todo: present fields overwrite,
/// absent fields keep the old value, and `updated_at` is always refreshed.
pub open spec fn apply_update_model(m: TodoModel, u: UpdateModel, now: u64) -> TodoModel {
    TodoModel {
        id: m.id,
        title: match u.title {
            Some(t) => t,
            None => m.title,
        },
        description: match u.description {
            Some(d) => Some(d),
            None => m.description,
        },
        status: match u.status {
            Some(st) => st,
            None => m.status,
        },
        created_at: m.created_at,
        updated_at: update_time(m, now),
    }
}

/// The state after a partial update of the todo bearing `id`: every other
/// todo is untouched; when no todo bears `id` the state is unchanged.
pub open spec fn update_model(s: Seq<TodoModel>, id: u128, u: UpdateModel, now: u64) -> Seq<
    TodoModel,
> {
    s.map_values(|m: TodoModel| if m.id == id { apply_update_model(m, u, now) } else { m })
}

/// The state after deleting the first todo bearing `id`, if any.
pub open spec fn delete_model(s: Seq<TodoModel>, id: u128) -> Seq<TodoModel>
    decreases s.len(),
{
    if s.len() == 0 {
        Seq::empty()
    } else if s[0].id == id {
        s.drop_first()
    } else {
        seq![s[0]] + delete_model(s.drop_first(), id)
    }
}

/// Well-formedness of a store's queryable state: ids are unique, todos stand
/// newest first, and no todo was updated before it was created.
pub open spec fn store_inv(s: Seq<TodoModel>) -> bool {
    &&& forall|i: int, j: int| 0 <= i < j < s.len() ==> s[i].id != s[j].id
    &&& forall|i: int, j: int| 0 <= i < j < s.len() ==> s[i].created_at >= s[j].created_at
    &&& forall|i: int| 0 <= i < s.len() ==> s[i].updated_at >= s[i].created_at
}

/// `get_model` answers the first todo bearing the id.
pub proof fn lemma_get_model_at(s: Seq<TodoModel>, id: u128, i: int)
    requires
        0 <= i < s.len(),
        s[i].id == id,
        forall|j: int| 0 <= j < i ==> s[j].id != id,
    ensures
        get_model(s, id) == Some(s[i]),
    decreases i,
{
    if i > 0 {
        lemma_get_model_at(s.drop_first(), id, i - 1);
    }
}

/// `get_model` answers `None` exactly when no todo bears the id.
pub proof fn lemma_get_model_absent(s: Seq<TodoModel>, id: u128)
    requires
        forall|j: int| 0 <= j < s.len() ==> s[j].id != id,
    ensures
        get_model(s, id) is None,
    decreases s.len(),
{
    if s.len() > 0 {
        lemma_get_model_absent(s.drop_first(), id);
    }
}

/// `get_model` finds a todo exactly when one bears the id.
pub proof fn lemma_get_model_contains(s: Seq<TodoModel>, id: u128)
    ensures
        get_model(s, id) is Some <==> contains_id(s, id),
    decreases s.len(),
{
    if s.len() > 0 && s[0].id != id {
        lemma_get_model_contains(s.drop_first(), id);
        if contains_id(s, id) {
            let i = choose|i: int| 0 <= i < s.len() && s[i].id == id;
            assert(s.drop_first()[i - 1].id == id);
        }
        if contains_id(s.drop_first(), id) {
            let i = choose|i: int| 0 <= i < s.drop_first().len() && s.drop_first()[i].id == id;
            assert(s[i + 1].id == id);
        }
    }
}

/// Deleting by an id that no todo bears leaves the state unchanged.
pub proof fn lemma_delete_model_absent(s: Seq<TodoModel>, id: u128)
    requires
        forall|j: int| 0 <= j < s.len() ==> s[j].id != id,
    ensures
        delete_model(s, id) == s,
    decreases s.len(),
{
    if s.len() > 0 {
        lemma_delete_model_absent(s.drop_first(), id);
        assert(delete_model(s, id) =~= s);
    }
}

/// Deleting by the id first borne at position `i` removes that position.
pub proof fn lemma_delete_model_at(s: Seq<TodoModel>, id: u128, i: int)
    requires
        0 <= i < s.len(),
        s[i].id == id,
        forall|j: int| 0 <= j < i ==> s[j].id != id,
    ensures
        delete_model(s, id) == s.remove(i),
    decreases i,
{
    if i == 0 {
        assert(delete_model(s, id) =~= s.remove(0));
    } else {
        lemma_delete_model_at(s.drop_first(), id, i - 1);
        assert(delete_model(s, id) =~= s.remove(i));
    }
}

/// An update aimed at an id that no todo bears changes nothing.
pub proof fn lemma_update_model_absent(s: Seq<TodoModel>, id: u128, u: UpdateModel, now: u64)
    requires
        !contains_id(s, id),
    ensures
        update_model(s, id, u, now) == s,
{
    assert(update_model(s, id, u, now) =~= s);
}


/// Applies the overlay of a partial update to one todo at clock reading
/// `now`: the executable form of [`apply_update_model`], shared by any
/// storage adapter that reads a row, overlays it and writes it back.
pub fn apply_update(t: Todo, input: UpdateTodo, now: u64) -> (r: Todo)
    ensures
        r@ == apply_update_model(t@, input@, now),
{
    let updated_at = if now < t.created_at {
        t.created_at
    } else {
        now
    };
    Todo {
        id: t.id,
        title: match input.title {
            Some(w) => w,
            None => t.title,
        },
        description: match input.description {
            Some(w) => Some(w),
            None => t.description,
        },
        status: match input.status {
            Some(w) => w,
            None => t.status,
        },
        created_at: t.created_at,
        updated_at: updated_at,
    }
}

/// Abstract persistence contract for todos. The service layer depends on
/// this trait alone; a storage engine is swapped by supplying another
/// implementation. Identifier generation and the clock are internal to an
/// implementation, so `create` and `update` promise everything about the
/// next state except the exact clock reading written into `updated_at`.
pub trait TodoRepository: Sized {
    /// The todos currently queryable, newest first.
    spec fn repo_view(&self) -> Seq<TodoModel>;

    /// Prepares the underlying storage. Idempotent: however often it is
    /// called, the queryable state never changes.
    fn init(&mut self) -> (r: Result<(), StorageError>)
        requires
            store_inv(old(self).repo_view()),
        ensures
            store_inv(final(self).repo_view()),
            final(self).repo_view() == old(self).repo_view(),
    ;

    /// Produces a new pending todo from `input` under a fresh id and places
    /// it first in the state; on failure the state is unchanged.
    fn create(&mut self, input: CreateTodo) -> (r: Result<Todo, StorageError>)
        requires
            store_inv(old(self).repo_view()),
        ensures
            store_inv(final(self).repo_view()),
            match r {
                Ok(t) => {
                    &&& t@.title == input@.title
                    &&& t@.description == input@.description
                    &&& t@.status is Pending
                    &&& t@.created_at == t@.updated_at
                    &&& !contains_id(old(self).repo_view(), t@.id)
                    &&& final(self).repo_view() == create_model(old(self).repo_view(), t@)
                },
                Err(_) => final(self).repo_view() == old(self).repo_view(),
            },
    ;

    /// Answers the todo bearing `id`, or `None` when there is none.
    fn get(&self, id: TodoId) -> (r: Result<Option<Todo>, StorageError>)
        ensures
            match r {
                Ok(o) => o.deep_view() == get_model(self.repo_view(), id.0),
                Err(_) => true,
            },
    ;

    /// Answers all todos, newest first; the empty vector when none exist.
    fn list(&self) -> (r: Result<Vec<Todo>, StorageError>)
        ensures
            match r {
                Ok(v) => v.deep_view() == self.repo_view(),
                Err(_) => true,
            },
    ;

    /// Applies the partial update `input` to the todo bearing `id` and
    /// answers the updated todo; answers `None`, with no side effect, when
    /// no todo bears `id`. On failure the state is unchanged.
    fn update(&mut self, id: TodoId, input: UpdateTodo) -> (r: Result<
        Option<Todo>,
        StorageError,
    >)
        requires
            store_inv(old(self).repo_view()),
        ensures
            store_inv(final(self).repo_view()),
            match r {
                Ok(o) => match o {
                    Some(t) => {
                        &&& get_model(old(self).repo_view(), id.0) matches Some(m)
                        &&& t@ == apply_update_model(m, input@, t@.updated_at)
                        &&& t@.updated_at >= t@.created_at
                        &&& final(self).repo_view() == update_model(
                            old(self).repo_view(),
                            id.0,
                            input@,
                            t@.updated_at,
                        )
                    },
                    None => {
                        &&& !contains_id(old(self).repo_view(), id.0)
                        &&& final(self).repo_view() == old(self).repo_view()
                    },
                },
                Err(_) => final(self).repo_view() == old(self).repo_view(),
            },
    ;

    /// Removes the todo bearing `id`; answers whether one was removed.
    fn delete(&mut self, id: TodoId) -> (r: Result<bool, StorageError>)
        requires
            store_inv(old(self).repo_view()),
        ensures
            store_inv(final(self).repo_view()),
            match r {
                Ok(b) => {
                    &&& b <==> contains_id(old(self).repo_view(), id.0)
                    &&& final(self).repo_view() == delete_model(old(self).repo_view(), id.0)
                },
                Err(_) => final(self).repo_view() == old(self).repo_view(),
            },
    ;
}

} // verus!
