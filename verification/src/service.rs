//! The application service: the sole entry point for presentation layers.
//! Today it passes every operation through to the repository unchanged; it
//! exists so that business rules can later be inserted between presentation
//! and persistence without disturbing either.

use vstd::prelude::*;

use crate::repository::{
    apply_update_model, contains_id, create_model, delete_model, get_model, store_inv,
    update_model, StorageError, TodoRepository,
};
use crate::todo::{CreateTodo, Todo, TodoId, TodoModel, UpdateTodo};

verus! {

/// The stable contract that both presentation layers consume. It promises
/// the same queryable-state semantics as the repository contract.
pub trait TodoService: Sized {
    /// The todos currently queryable through this service, newest first.
    spec fn service_view(&self) -> Seq<TodoModel>;

    /// Produces a new pending todo from `input` under a fresh id and places
    /// it first in the state; on failure the state is unchanged.
    fn create(&mut self, input: CreateTodo) -> (r: Result<Todo, StorageError>)
        requires
            store_inv(old(self).service_view()),
        ensures
            store_inv(final(self).service_view()),
            match r {
                Ok(t) => {
                    &&& t@.title == input@.title
                    &&& t@.description == input@.description
                    &&& t@.status is Pending
                    &&& t@.created_at == t@.updated_at
                    &&& !contains_id(old(self).service_view(), t@.id)
                    &&& final(self).service_view() == create_model(old(self).service_view(), t@)
                },
                Err(_) => final(self).service_view() == old(self).service_view(),
            },
    ;

    /// Answers the todo bearing `id`, or `None` when there is none.
    fn get(&self, id: TodoId) -> (r: Result<Option<Todo>, StorageError>)
        ensures
            match r {
                Ok(o) => o.deep_view() == get_model(self.service_view(), id.0),
                Err(_) => true,
            },
    ;

    /// Answers all todos, newest first; the empty vector when none exist.
    fn list(&self) -> (r: Result<Vec<Todo>, StorageError>)
        ensures
            match r {
                Ok(v) => v.deep_view() == self.service_view(),
                Err(_) => true,
            },
    ;

    /// Applies the partial update `input` to the todo bearing `id` and
    /// answers the updated todo; answers `None`, with no side effect, when
    /// no todo bears `id`. On failure the state is unchanged.
    fn update(&mut self, id: TodoId, input: UpdateTodo) -> (r: Result<
        Option<Todo>,
        StorageError,
    >)
        requires
            store_inv(old(self).service_view()),
        ensures
            store_inv(final(self).service_view()),
            match r {
                Ok(o) => match o {
                    Some(t) => {
                        &&& get_model(old(self).service_view(), id.0) matches Some(m)
                        &&& t@ == apply_update_model(m, input@, t@.updated_at)
                        &&& t@.updated_at >= t@.created_at
                        &&& final(self).service_view() == update_model(
                            old(self).service_view(),
                            id.0,
                            input@,
                            t@.updated_at,
                        )
                    },
                    None => {
                        &&& !contains_id(old(self).service_view(), id.0)
                        &&& final(self).service_view() == old(self).service_view()
                    },
                },
                Err(_) => final(self).service_view() == old(self).service_view(),
            },
    ;

    /// Removes the todo bearing `id`; answers whether one was removed.
    fn delete(&mut self, id: TodoId) -> (r: Result<bool, StorageError>)
        requires
            store_inv(old(self).service_view()),
        ensures
            store_inv(final(self).service_view()),
            match r {
                Ok(b) => {
                    &&& b <==> contains_id(old(self).service_view(), id.0)
                    &&& final(self).service_view() == delete_model(
                        old(self).service_view(),
                        id.0,
                    )
                },
                Err(_) => final(self).service_view() == old(self).service_view(),
            },
    ;
}

/// The one service implementation: a pass-through over any repository.
pub struct TodoServiceImpl<R: TodoRepository> {
    repo: R,
}

impl<R: TodoRepository> View for TodoServiceImpl<R> {
    type V = Seq<TodoModel>;

    closed spec fn view(&self) -> Seq<TodoModel> {
        self.repo.repo_view()
    }
}

impl<R: TodoRepository> TodoServiceImpl<R> {
    /// Wraps the given repository; the queryable state is the repository's.
    pub fn new(repo: R) -> (s: Self)
        ensures
            s@ == repo.repo_view(),
    {
        TodoServiceImpl { repo }
    }
}

impl<R: TodoRepository> TodoService for TodoServiceImpl<R> {
    open spec fn service_view(&self) -> Seq<TodoModel> {
        self@
    }

    fn create(&mut self, input: CreateTodo) -> (r: Result<Todo, StorageError>) {
        self.repo.create(input)
    }

    fn get(&self, id: TodoId) -> (r: Result<Option<Todo>, StorageError>) {
        self.repo.get(id)
    }

    fn list(&self) -> (r: Result<Vec<Todo>, StorageError>) {
        self.repo.list()
    }

    fn update(&mut self, id: TodoId, input: UpdateTodo) -> (r: Result<Option<Todo>, StorageError>) {
        self.repo.update(id, input)
    }

    fn delete(&mut self, id: TodoId) -> (r: Result<bool, StorageError>) {
        self.repo.delete(id)
    }
}

} // verus!
