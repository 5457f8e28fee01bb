use crate::domain::repository::todo_repository::{filtered, CountTodoError, TodoRepository};
use crate::usecase::status_filter::{status_filter, status_filter_of, status_word};
use vstd::prelude::*;

verus! {

pub struct CountTodosUsecase<'a, R: TodoRepository> {
    pub todo_repo: &'a R,
}

/// What the use case answers to what the repository answered: the
/// count, or zero for any failure.
pub fn outcome(counted: Result<i64, CountTodoError>) -> (count: i64)
    ensures
        count == (match counted {
            Ok(n) => n,
            Err(_) => 0,
        }),
{
    match counted {
        Ok(n) => n,
        Err(_) => 0,
    }
}

impl<'a, R: TodoRepository> CountTodosUsecase<'a, R> {
    pub fn new(todo_repo: &'a R) -> (usecase: Self)
        ensures
            usecase.todo_repo == todo_repo,
    {
        CountTodosUsecase { todo_repo }
    }

    /// How many todos the status word asks for. A repository that fails
    /// makes the count zero.
    pub fn exec(&self, status: Option<&String>) -> (count: i64)
        ensures
            count == filtered(
                self.todo_repo.records(),
                status_filter_of(status_word(status)),
            ).len() || (!self.todo_repo.dependable() && count == 0),
    {
        let counted = match status_filter(status) {
            Some(flag) => self.todo_repo.count(Some(&flag)),
            None => self.todo_repo.count(None),
        };
        outcome(counted)
    }
}

} // verus!
