use crate::domain::exception::TodoException;
use crate::domain::repository::todo_repository::{pending, DeleteError, TodoRepository};
use vstd::prelude::*;

verus! {

pub struct ClearAllCompletedTodosUsecase<'a, R: TodoRepository> {
    pub todo_repo: &'a mut R,
}

/// What the use case answers to what the repository answered: that
/// nothing was there to delete is no failure, any other failure is
/// `Unknown`.
pub fn outcome(deleted: Result<(), DeleteError>) -> (answer: Result<(), TodoException>)
    ensures
        answer == (match deleted {
            Ok(_) => Ok::<(), TodoException>(()),
            Err(DeleteError::NotFound) => Ok::<(), TodoException>(()),
            Err(DeleteError::DBInternalError) => Err::<(), TodoException>(
                TodoException::Unknown,
            ),
        }),
{
    match deleted {
        Ok(_) => Ok(()),
        Err(DeleteError::NotFound) => Ok(()),
        Err(_) => Err(TodoException::Unknown),
    }
}

impl<'a, R: TodoRepository> ClearAllCompletedTodosUsecase<'a, R> {
    pub fn new(todo_repo: &'a mut R) -> (usecase: Self)
        ensures
            *usecase.todo_repo == *old(todo_repo),
            *final(usecase.todo_repo) == *final(todo_repo),
    {
        ClearAllCompletedTodosUsecase { todo_repo }
    }

    /// Deletes every todo that is done.
    pub fn exec(&mut self) -> (answer: Result<(), TodoException>)
        ensures
            *final(final(self).todo_repo) == *final(old(self).todo_repo),
            final(self).todo_repo.dependable() == old(self).todo_repo.dependable(),
            match answer {
                Ok(_) => final(self).todo_repo.records() == pending(
                    old(self).todo_repo.records(),
                ) || (!old(self).todo_repo.dependable() && final(self).todo_repo.records() == old(
                    self,
                ).todo_repo.records()),
                Err(exception) => {
                    &&& exception == TodoException::Unknown
                    &&& !old(self).todo_repo.dependable()
                    &&& final(self).todo_repo.records() == old(self).todo_repo.records()
                },
            },
    {
        let deleted = self.todo_repo.delete_done_todos();
        outcome(deleted)
    }
}

} // verus!
