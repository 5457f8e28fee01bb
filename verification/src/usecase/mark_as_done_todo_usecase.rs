use crate::domain::entity::todo::Todo;
use crate::domain::exception::TodoException;
use crate::domain::repository::todo_repository::{
    has_id, lemma_position_of_known_id, position_of, FindTodoError, TodoRepository, UpdateError,
};
use vstd::prelude::*;

verus! {

pub struct MarkAsDoneTodoUsecase<'a, R: TodoRepository> {
    pub todo_repo: &'a mut R,
}

/// What the use case goes on with after the repository looked the todo
/// up: the todo, `NotFound` where there is none, `Unknown` for any other
/// failure.
pub fn found(looked_up: Result<Todo, FindTodoError>) -> (answer: Result<Todo, TodoException>)
    ensures
        match looked_up {
            Ok(todo) => answer == Ok::<Todo, TodoException>(todo),
            Err(FindTodoError::NotFound) => answer == Err::<Todo, TodoException>(
                TodoException::NotFound,
            ),
            Err(FindTodoError::DBInternalError) => answer == Err::<Todo, TodoException>(
                TodoException::Unknown,
            ),
        },
{
    match looked_up {
        Ok(todo) => Ok(todo),
        Err(FindTodoError::NotFound) => Err(TodoException::NotFound),
        Err(_) => Err(TodoException::Unknown),
    }
}

/// What the use case answers after the repository stored the marked
/// todo: that todo, `NotFound` where it was gone, `Unknown` for any other
/// failure.
pub fn outcome(updated: Result<Todo, UpdateError>, marked: Todo) -> (answer: Result<
    Todo,
    TodoException,
>)
    ensures
        match updated {
            Ok(_) => answer == Ok::<Todo, TodoException>(marked),
            Err(UpdateError::NotFound) => answer == Err::<Todo, TodoException>(
                TodoException::NotFound,
            ),
            Err(UpdateError::DBInternalError) => answer == Err::<Todo, TodoException>(
                TodoException::Unknown,
            ),
        },
{
    match updated {
        Ok(_) => Ok(marked),
        Err(UpdateError::NotFound) => Err(TodoException::NotFound),
        Err(_) => Err(TodoException::Unknown),
    }
}

impl<'a, R: TodoRepository> MarkAsDoneTodoUsecase<'a, R> {
    pub fn new(todo_repo: &'a mut R) -> (usecase: Self)
        ensures
            *usecase.todo_repo == *old(todo_repo),
            *final(usecase.todo_repo) == *final(todo_repo),
    {
        MarkAsDoneTodoUsecase { todo_repo }
    }

    /// Marks the todo with the identifier done or not done as of now, and
    /// stores it.
    pub fn exec(&mut self, id: String, done: bool) -> (answer: Result<Todo, TodoException>)
        ensures
            *final(final(self).todo_repo) == *final(old(self).todo_repo),
            final(self).todo_repo.dependable() == old(self).todo_repo.dependable(),
            match answer {
                Ok(todo) => {
                    let at = position_of(old(self).todo_repo.records(), id@);
                    &&& has_id(old(self).todo_repo.records(), id@)
                    &&& todo@ == old(self).todo_repo.records()[at].marked(done, todo@.updated_at)
                    &&& todo@.updated_at.is_valid()
                    &&& final(self).todo_repo.records() == old(self).todo_repo.records().update(
                        at,
                        todo@,
                    )
                },
                Err(TodoException::NotFound) => {
                    &&& !has_id(old(self).todo_repo.records(), id@)
                    &&& final(self).todo_repo.records() == old(self).todo_repo.records()
                },
                Err(TodoException::Unknown) => {
                    &&& !old(self).todo_repo.dependable()
                    &&& final(self).todo_repo.records() == old(self).todo_repo.records()
                },
                Err(TodoException::AlreadyExists) => false,
            },
    {
        let looked_up = self.todo_repo.find_by_id(id);
        let mut todo = match found(looked_up) {
            Ok(todo) => todo,
            Err(exception) => {
                return Err(exception);
            },
        };
        proof {
            lemma_position_of_known_id(old(self).todo_repo.records(), id@);
        }
        todo.mark_as_done(done);
        let updated = self.todo_repo.update(todo.clone());
        outcome(updated, todo)
    }
}

} // verus!
