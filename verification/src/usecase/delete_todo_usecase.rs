use crate::domain::exception::TodoException;
use crate::domain::repository::todo_repository::{
    has_id, position_of, DeleteError, TodoRepository,
};
use vstd::prelude::*;

verus! {

pub struct DeleteTodoUsecase<'a, R: TodoRepository> {
    pub todo_repo: &'a mut R,
}

/// What the use case answers to what the repository answered:
/// `NotFound` stays, any other failure is `Unknown`.
pub fn outcome(deleted: Result<(), DeleteError>) -> (answer: Result<(), TodoException>)
    ensures
        answer == (match deleted {
            Ok(_) => Ok::<(), TodoException>(()),
            Err(DeleteError::NotFound) => Err::<(), TodoException>(TodoException::NotFound),
            Err(DeleteError::DBInternalError) => Err::<(), TodoException>(
                TodoException::Unknown,
            ),
        }),
{
    match deleted {
        Ok(()) => Ok(()),
        Err(DeleteError::NotFound) => Err(TodoException::NotFound),
        Err(_) => Err(TodoException::Unknown),
    }
}

impl<'a, R: TodoRepository> DeleteTodoUsecase<'a, R> {
    pub fn new(todo_repo: &'a mut R) -> (usecase: Self)
        ensures
            *usecase.todo_repo == *old(todo_repo),
            *final(usecase.todo_repo) == *final(todo_repo),
    {
        DeleteTodoUsecase { todo_repo }
    }

    /// Deletes the todo with the identifier.
    pub fn exec(&mut self, id: String) -> (answer: Result<(), TodoException>)
        ensures
            *final(final(self).todo_repo) == *final(old(self).todo_repo),
            final(self).todo_repo.dependable() == old(self).todo_repo.dependable(),
            match answer {
                Ok(_) => {
                    &&& has_id(old(self).todo_repo.records(), id@)
                    &&& final(self).todo_repo.records() == old(self).todo_repo.records().remove(
                        position_of(old(self).todo_repo.records(), id@),
                    )
                },
                Err(TodoException::NotFound) => {
                    &&& !has_id(old(self).todo_repo.records(), id@)
                    &&& final(self).todo_repo.records() == old(self).todo_repo.records()
                },
                Err(TodoException::Unknown) => {
                    &&& !old(self).todo_repo.dependable()
                    &&& final(self).todo_repo.records() == old(self).todo_repo.records()
                },
                Err(TodoException::AlreadyExists) => false,
            },
    {
        let deleted = self.todo_repo.delete(id);
        outcome(deleted)
    }
}

} // verus!
