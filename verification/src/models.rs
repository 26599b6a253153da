//! The todo records and the request bodies that create, change and select them.

use vstd::prelude::*;

verus! {

/// A stored todo. The identifier is the UUID's 128-bit value (big-endian);
/// the two timestamps are microseconds since the Unix epoch, UTC.
#[derive(Debug, Clone)]
pub struct Todo {
    pub id: u128,
    pub title: String,
    pub description: Option<String>,
    pub completed: bool,
    pub created_at: i64,
    pub updated_at: i64,
}

/// The body of a request that creates a todo.
#[derive(Debug, Clone)]
pub struct CreateTodo {
    pub title: String,
    pub description: Option<String>,
}

/// The body of a request that changes a todo: each field that is present
/// replaces the stored one.
#[derive(Debug, Clone)]
pub struct UpdateTodo {
    pub title: Option<String>,
    pub description: Option<String>,
    pub completed: Option<bool>,
}

/// The query of a request that lists todos: when `completed` is given, only
/// the todos with that completion state are listed.
#[derive(Debug, Clone)]
pub struct TodoFilter {
    completed: Option<bool>,
}

impl TodoFilter {
    pub closed spec fn spec_completed(&self) -> Option<bool> {
        self.completed
    }

    /// A filter on the given completion state, or none.
    pub fn new(completed: Option<bool>) -> (r: TodoFilter)
        ensures
            r.spec_completed() == completed,
    {
        TodoFilter { completed }
    }

    /// The completion state this filter selects, if any.
    #[verifier::when_used_as_spec(spec_completed)]
    pub fn completed(&self) -> (r: Option<bool>)
        ensures
            r == self.spec_completed(),
    {
        self.completed
    }
}

} // verus!
