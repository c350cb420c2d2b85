//! Domain model: the `Todo` entity and its value objects.

use vstd::prelude::*;

verus! {

/// Unique identifier of a todo: the 128-bit value of the UUID that names it.
/// Generated once at creation and immutable thereafter.
#[derive(Clone, Copy, PartialEq, Eq, Structural, Debug)]
pub struct TodoId(pub u128);

/// Relies on `uuid::Uuid::new_v4` and `Uuid::as_u128`: a freshly drawn
/// random identifier. Nothing is assumed of the value drawn.
#[verifier::external_body]
pub(crate) fn fresh_uuid() -> u128 {
    uuid::Uuid::new_v4().as_u128()
}

impl Default for TodoId {
    /// A freshly generated identifier.
    fn default() -> Self {
        TodoId(fresh_uuid())
    }
}

/// Completion state of a todo.
#[derive(Clone, Copy, PartialEq, Eq, Structural, Debug)]
pub enum TodoStatus {
    Pending,
    Done,
}

/// The task entity tracked by this crate. Timestamps are milliseconds of
/// UTC time; `created_at` is set once at creation, `updated_at` is refreshed
/// on every applied mutation.
#[derive(Debug)]
pub struct Todo {
    pub id: TodoId,
    pub title: String,
    pub description: Option<String>,
    pub status: TodoStatus,
    pub created_at: u64,
    pub updated_at: u64,
}

/// Mathematical value of a [`Todo`]: the texts as character sequences.
pub struct TodoModel {
    pub id: u128,
    pub title: Seq<char>,
    pub description: Option<Seq<char>>,
    pub status: TodoStatus,
    pub created_at: u64,
    pub updated_at: u64,
}

impl View for Todo {
    type V = TodoModel;

    open spec fn view(&self) -> TodoModel {
        TodoModel {
            id: self.id.0,
            title: self.title@,
            description: self.description.deep_view(),
            status: self.status,
            created_at: self.created_at,
            updated_at: self.updated_at,
        }
    }
}

impl DeepView for Todo {
    type V = TodoModel;

    open spec fn deep_view(&self) -> TodoModel {
        self.view()
    }
}

impl Clone for Todo {
    fn clone(&self) -> (r: Self)
        ensures
            r == *self,
    {
        Todo {
            id: self.id,
            title: self.title.clone(),
            description: match &self.description {
                Some(d) => Some(d.clone()),
                None => None,
            },
            status: self.status,
            created_at: self.created_at,
            updated_at: self.updated_at,
        }
    }
}

/// Input for creating a todo: a required title and an optional description.
/// The new todo starts `Pending` with `created_at == updated_at`.
#[derive(Debug)]
pub struct CreateTodo {
    pub title: String,
    pub description: Option<String>,
}

/// Mathematical value of a [`CreateTodo`].
pub struct CreateModel {
    pub title: Seq<char>,
    pub description: Option<Seq<char>>,
}

impl View for CreateTodo {
    type V = CreateModel;

    open spec fn view(&self) -> CreateModel {
        CreateModel { title: self.title@, description: self.description.deep_view() }
    }
}

impl Clone for CreateTodo {
    fn clone(&self) -> (r: Self)
        ensures
            r == *self,
    {
        CreateTodo {
            title: self.title.clone(),
            description: match &self.description {
                Some(d) => Some(d.clone()),
                None => None,
            },
        }
    }
}

/// Partial update of a todo: each present field overwrites the matching
/// todo field, each absent field leaves it unchanged. Applying any update
/// refreshes `updated_at`, even when nothing else changes.
#[derive(Debug)]
pub struct UpdateTodo {
    pub title: Option<String>,
    pub description: Option<String>,
    pub status: Option<TodoStatus>,
}

/// Mathematical value of an [`UpdateTodo`].
pub struct UpdateModel {
    pub title: Option<Seq<char>>,
    pub description: Option<Seq<char>>,
    pub status: Option<TodoStatus>,
}

impl View for UpdateTodo {
    type V = UpdateModel;

    open spec fn view(&self) -> UpdateModel {
        UpdateModel {
            title: self.title.deep_view(),
            description: self.description.deep_view(),
            status: self.status,
        }
    }
}

impl Clone for UpdateTodo {
    fn clone(&self) -> (r: Self)
        ensures
            r == *self,
    {
        UpdateTodo {
            title: match &self.title {
                Some(t) => Some(t.clone()),
                None => None,
            },
            description: match &self.description {
                Some(d) => Some(d.clone()),
                None => None,
            },
            status: self.status,
        }
    }
}

} // verus!
