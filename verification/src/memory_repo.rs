//! The concrete storage adapter of this crate: an in-memory realization of
//! the repository contract, verified against the mathematical model in
//! [`crate::repository`]. Its vector of todos is kept newest first, so the
//! queryable state is read off directly.

use vstd::prelude::*;

use crate::repository::{
    apply_update, apply_update_model, contains_id, create_model, create_time, get_model,
    lemma_delete_model_absent, lemma_delete_model_at, lemma_get_model_absent, lemma_get_model_at,
    lemma_get_model_contains, lemma_update_model_absent, new_model, store_inv, update_model,
    update_time, StorageError, TodoRepository,
};
use crate::todo::{fresh_uuid, CreateTodo, Todo, TodoId, TodoModel, TodoStatus, UpdateTodo};

verus! {

/// Relies on `chrono::Utc::now` and `DateTime::timestamp_millis`: the wall
/// clock in milliseconds. Nothing is assumed of the reading.
#[verifier::external_body]
fn now_millis() -> u64 {
    chrono::Utc::now().timestamp_millis() as u64
}

/// The in-memory storage adapter: one growable table of todos, newest first.
pub struct InMemoryRepo {
    items: Vec<Todo>,
}

impl View for InMemoryRepo {
    type V = Seq<TodoModel>;

    closed spec fn view(&self) -> Seq<TodoModel> {
        self.items.deep_view()
    }
}

impl InMemoryRepo {
    /// An empty store; its state is well formed from the start.
    pub fn new() -> (r: Self)
        ensures
            r@ == Seq::<TodoModel>::empty(),
            store_inv(r@),
    {
        InMemoryRepo { items: Vec::new() }
    }

    /// The position of the todo bearing `id`, if any.
    fn find_index(&self, id: TodoId) -> (r: Option<usize>)
        ensures
            match r {
                Some(i) => {
                    &&& i < self@.len()
                    &&& self@[i as int].id == id.0
                    &&& forall|j: int| 0 <= j < i ==> self@[j].id != id.0
                },
                None => !contains_id(self@, id.0),
            },
    {
        let mut i: usize = 0;
        while i < self.items.len()
            invariant
                i <= self.items.len(),
                forall|j: int| 0 <= j < i ==> self@[j].id != id.0,
            decreases self.items.len() - i,
        {
            if self.items[i].id == id {
                return Some(i);
            }
            i += 1;
        }
        None
    }

    /// The deterministic core of `create`: the caller supplies the fresh id
    /// and the clock reading. Fails exactly when the id is already taken;
    /// otherwise the new todo is written at the creation time of the model
    /// and answered back.
    pub fn create_with(&mut self, input: CreateTodo, id: TodoId, now: u64) -> (r: Result<
        Todo,
        StorageError,
    >)
        requires
            store_inv(old(self)@),
        ensures
            store_inv(final(self)@),
            match r {
                Ok(t) => {
                    &&& !contains_id(old(self)@, id.0)
                    &&& t@ == new_model(input@, id.0, create_time(old(self)@, now))
                    &&& final(self)@ == create_model(old(self)@, t@)
                },
                Err(_) => {
                    &&& contains_id(old(self)@, id.0)
                    &&& final(self)@ == old(self)@
                },
            },
    {
        if self.find_index(id).is_some() {
            return Err(StorageError { message: "id already present".to_owned() });
        }
        let at = if self.items.len() > 0 && now < self.items[0].created_at {
            self.items[0].created_at
        } else {
            now
        };
        let t = Todo {
            id: id,
            title: input.title,
            description: input.description,
            status: TodoStatus::Pending,
            created_at: at,
            updated_at: at,
        };
        let out = t.clone();
        self.items.insert(0, t);
        proof {
            assert(self@ =~= create_model(old(self)@, out@));
            assert forall|i: int, j: int| 0 <= i < j < self@.len() implies self@[i].id
                != self@[j].id by {
                if i > 0 {
                    assert(self@[i] == old(self)@[i - 1]);
                }
                assert(self@[j] == old(self)@[j - 1]);
            }
            assert forall|i: int, j: int| 0 <= i < j < self@.len() implies self@[i].created_at
                >= self@[j].created_at by {
                if i > 0 {
                    assert(self@[i] == old(self)@[i - 1]);
                }
                assert(self@[j] == old(self)@[j - 1]);
            }
        }
        Ok(out)
    }

    /// The deterministic core of `update`: the caller supplies the clock
    /// reading. Answers the updated todo, or `None`, with no side effect,
    /// when no todo bears `id`.
    pub fn update_with(&mut self, id: TodoId, input: UpdateTodo, now: u64) -> (r: Option<Todo>)
        requires
            store_inv(old(self)@),
        ensures
            store_inv(final(self)@),
            final(self)@ == update_model(old(self)@, id.0, input@, now),
            match get_model(old(self)@, id.0) {
                Some(m) => r.deep_view() == Some(
                    apply_update_model(m, input@, now),
                ),
                None => r is None,
            },
    {
        let found = self.find_index(id);
        match found {
            None => {
                proof {
                    lemma_get_model_absent(self@, id.0);
                    assert(update_model(self@, id.0, input@, now) =~= self@);
                }
                None
            },
            Some(i) => {
                proof {
                    lemma_get_model_at(self@, id.0, i as int);
                }
                let t = apply_update(self.items[i].clone(), input, now);
                let out = t.clone();
                self.items.set(i, t);
                proof {
                    assert(out@ == apply_update_model(old(self)@[i as int], input@, now));
                    assert forall|k: int| 0 <= k < self@.len() implies self@[k] == update_model(
                        old(self)@,
                        id.0,
                        input@,
                        now,
                    )[k] by {
                        if k != i {
                            assert(self@[k] == old(self)@[k]);
                            assert(old(self)@[k].id != id.0);
                        }
                    }
                    assert(self@ =~= update_model(old(self)@, id.0, input@, now));
                }
                Some(out)
            },
        }
    }
}

impl TodoRepository for InMemoryRepo {
    open spec fn repo_view(&self) -> Seq<TodoModel> {
        self@
    }

    fn init(&mut self) -> (r: Result<(), StorageError>)
        ensures
            r is Ok,
    {
        Ok(())
    }

    fn create(&mut self, input: CreateTodo) -> (r: Result<Todo, StorageError>)
        ensures
            old(self)@.len() == 0 ==> r is Ok,
    {
        let id = TodoId(fresh_uuid());
        let now = now_millis();
        self.create_with(input, id, now)
    }

    fn get(&self, id: TodoId) -> (r: Result<Option<Todo>, StorageError>)
        ensures
            r is Ok,
    {
        match self.find_index(id) {
            Some(i) => {
                proof {
                    lemma_get_model_at(self@, id.0, i as int);
                }
                Ok(Some(self.items[i].clone()))
            },
            None => {
                proof {
                    lemma_get_model_absent(self@, id.0);
                }
                Ok(None)
            },
        }
    }

    fn list(&self) -> (r: Result<Vec<Todo>, StorageError>)
        ensures
            r is Ok,
    {
        let mut out: Vec<Todo> = Vec::new();
        let mut i: usize = 0;
        while i < self.items.len()
            invariant
                i <= self.items.len(),
                out@ == self.items@.take(i as int),
            decreases self.items.len() - i,
        {
            out.push(self.items[i].clone());
            proof {
                assert(out@ =~= self.items@.take(i as int + 1));
            }
            i += 1;
        }
        proof {
            assert(out@ =~= self.items@);
            assert forall|k: int| 0 <= k < out.deep_view().len() implies out.deep_view()[k]
                == self@[k] by {
                assert(out@[k] == self.items@[k]);
            }
            assert(out.deep_view() =~= self@);
        }
        Ok(out)
    }

    fn update(&mut self, id: TodoId, input: UpdateTodo) -> (r: Result<Option<Todo>, StorageError>)
        ensures
            r is Ok,
    {
        let now = now_millis();
        let r = self.update_with(id, input, now);
        proof {
            lemma_get_model_contains(old(self)@, id.0);
            match get_model(old(self)@, id.0) {
                Some(m) => {
                    let at = update_time(m, now);
                    assert(apply_update_model(m, input@, at) == apply_update_model(
                        m,
                        input@,
                        now,
                    ));
                    assert forall|k: int| 0 <= k < old(self)@.len() implies update_model(
                        old(self)@,
                        id.0,
                        input@,
                        at,
                    )[k] == update_model(old(self)@, id.0, input@, now)[k] by {
                        if old(self)@[k].id == id.0 {
                            lemma_get_model_at(old(self)@, id.0, k);
                        }
                    }
                    assert(update_model(old(self)@, id.0, input@, at) =~= update_model(
                        old(self)@,
                        id.0,
                        input@,
                        now,
                    ));
                },
                None => {
                    lemma_update_model_absent(old(self)@, id.0, input@, now);
                },
            }
        }
        Ok(r)
    }

    fn delete(&mut self, id: TodoId) -> (r: Result<bool, StorageError>)
        ensures
            r is Ok,
    {
        match self.find_index(id) {
            Some(i) => {
                proof {
                    lemma_delete_model_at(self@, id.0, i as int);
                }
                self.items.remove(i);
                proof {
                    assert(self@ =~= old(self)@.remove(i as int));
                    assert forall|k: int, l: int| 0 <= k < l < self@.len() implies self@[k].id
                        != self@[l].id && self@[k].created_at >= self@[l].created_at by {
                        let k0 = if k < i { k } else { k + 1 };
                        let l0 = if l < i { l } else { l + 1 };
                        assert(self@[k] == old(self)@[k0]);
                        assert(self@[l] == old(self)@[l0]);
                    }
                }
                Ok(true)
            },
            None => {
                proof {
                    lemma_delete_model_absent(self@, id.0);
                }
                Ok(false)
            },
        }
    }
}

} // verus!
