use crate::domain::entity::todo::Todo;
use crate::domain::exception::TodoException;
use crate::domain::repository::todo_repository::{
    is_page, models, FindManyTodoArgs, FindManyTodoError, FindManyTodoPaginatedArgs,
    TodoRepository,
};
use crate::usecase::status_filter::{status_filter, status_filter_of, status_word};
use vstd::prelude::*;

verus! {

/// How many todos a list holds at most.
pub const LIST_TAKE: i64 = 50;

pub struct GetAllTodosUsecase<'a, R: TodoRepository> {
    pub todo_repo: &'a R,
}

/// What the repository is asked for a status word: the first
/// [`LIST_TAKE`] todos under the filter of the word.
pub fn params(status: Option<&String>) -> (args: FindManyTodoPaginatedArgs)
    ensures
        args.take == LIST_TAKE,
        args.cursor is None,
        args.filters.done == status_filter_of(status_word(status)),
{
    let done = status_filter(status);
    FindManyTodoPaginatedArgs::new(Some(LIST_TAKE), None, Some(FindManyTodoArgs { done }))
}

/// What the use case answers to what the repository answered: the
/// todos, or `Unknown` for any failure.
pub fn outcome(found: Result<Vec<Todo>, FindManyTodoError>) -> (answer: Result<
    Vec<Todo>,
    TodoException,
>)
    ensures
        match found {
            Ok(todos) => answer == Ok::<Vec<Todo>, TodoException>(todos),
            Err(_) => answer == Err::<Vec<Todo>, TodoException>(TodoException::Unknown),
        },
{
    match found {
        Ok(todos) => Ok(todos),
        Err(_) => Err(TodoException::Unknown),
    }
}

impl<'a, R: TodoRepository> GetAllTodosUsecase<'a, R> {
    pub fn new(todo_repo: &'a R) -> (usecase: Self)
        ensures
            usecase.todo_repo == todo_repo,
    {
        GetAllTodosUsecase { todo_repo }
    }

    /// The first [`LIST_TAKE`] todos that the status word asks for, newest
    /// first.
    pub fn exec(&self, status: Option<&String>) -> (answer: Result<Vec<Todo>, TodoException>)
        ensures
            match answer {
                Ok(todos) => is_page(
                    self.todo_repo.records(),
                    status_filter_of(status_word(status)),
                    LIST_TAKE as int,
                    models(todos@),
                ),
                Err(exception) => exception == TodoException::Unknown
                    && !self.todo_repo.dependable(),
            },
    {
        let args = params(status);
        let found = self.todo_repo.find_many_todos(args);
        outcome(found)
    }
}

} // verus!
