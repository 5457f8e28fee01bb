use crate::domain::entity::todo::{is_hyphenated_uuid_v4, Todo, TodoModel};
use crate::domain::exception::TodoException;
use crate::domain::repository::todo_repository::{
    has_id, CreateTodoError, TodoRepository, MAX_RECORDS,
};
use vstd::prelude::*;

verus! {

#[derive(Debug)]
pub struct CreateTodoParams {
    pub description: String,
}

pub struct CreateTodoUsecase<'a, R: TodoRepository> {
    pub todo_repo: &'a mut R,
}

/// What the use case answers to what the repository answered: the
/// stored todo, `AlreadyExists` where the repository has the todo already,
/// `Unknown` for any other failure.
pub fn outcome(created: Result<Todo, CreateTodoError>) -> (answer: Result<Todo, TodoException>)
    ensures
        match created {
            Ok(todo) => answer == Ok::<Todo, TodoException>(todo),
            Err(CreateTodoError::AlreadyExists) => answer == Err::<Todo, TodoException>(
                TodoException::AlreadyExists,
            ),
            Err(CreateTodoError::DBInternalError) => answer == Err::<Todo, TodoException>(
                TodoException::Unknown,
            ),
        },
{
    match created {
        Ok(todo) => Ok(todo),
        Err(CreateTodoError::AlreadyExists) => Err(TodoException::AlreadyExists),
        Err(CreateTodoError::DBInternalError) => Err(TodoException::Unknown),
    }
}

/// Some record has an identifier of the shape that a new todo is given.
pub open spec fn holds_drawn_shape(records: Seq<TodoModel>) -> bool {
    exists|i: int| 0 <= i < records.len() && is_hyphenated_uuid_v4((#[trigger] records[i]).id)
}

/// What a failed creation leaves and tells: the records are as they were;
/// `AlreadyExists` tells that the identifier drawn for the todo is that of
/// a record, `Unknown` that the store is full or failed for a reason of its
/// own.
pub open spec fn is_create_failure(
    before: Seq<TodoModel>,
    after: Seq<TodoModel>,
    dependable: bool,
    exception: TodoException,
) -> bool {
    &&& after == before
    &&& match exception {
        TodoException::AlreadyExists => holds_drawn_shape(before),
        TodoException::Unknown => !dependable || before.len() >= MAX_RECORDS,
        TodoException::NotFound => false,
    }
}

impl<'a, R: TodoRepository> CreateTodoUsecase<'a, R> {
    pub fn new(todo_repo: &'a mut R) -> (usecase: Self)
        ensures
            *usecase.todo_repo == *old(todo_repo),
            *final(usecase.todo_repo) == *final(todo_repo),
    {
        CreateTodoUsecase { todo_repo }
    }

    /// Makes a new todo with the description and stores it. The identifier
    /// is drawn at random: the repository refuses it where a record already
    /// has it, which cannot happen while no record has an identifier of
    /// that shape.
    pub fn exec(&mut self, params: CreateTodoParams) -> (answer: Result<Todo, TodoException>)
        ensures
            *final(final(self).todo_repo) == *final(old(self).todo_repo),
            final(self).todo_repo.dependable() == old(self).todo_repo.dependable(),
            match answer {
                Ok(todo) => {
                    &&& todo@ == TodoModel::fresh(todo@.id, params.description@, todo@.created_at)
                    &&& is_hyphenated_uuid_v4(todo@.id)
                    &&& todo@.wf()
                    &&& !has_id(old(self).todo_repo.records(), todo@.id)
                    &&& final(self).todo_repo.records() == old(self).todo_repo.records().push(
                        todo@,
                    )
                },
                Err(exception) => is_create_failure(
                    old(self).todo_repo.records(),
                    final(self).todo_repo.records(),
                    old(self).todo_repo.dependable(),
                    exception,
                ),
            },
            old(self).todo_repo.dependable() && old(self).todo_repo.records().len() < MAX_RECORDS
                && !holds_drawn_shape(old(self).todo_repo.records()) ==> answer is Ok,
    {
        let todo = Todo::new(params.description);
        let ghost drawn = todo@.id;
        let created = self.todo_repo.create_todo(todo);
        proof {
            let before = old(self).todo_repo.records();
            if has_id(before, drawn) {
                let i = choose|i: int| 0 <= i < before.len() && (#[trigger] before[i]).id == drawn;
                assert(is_hyphenated_uuid_v4(before[i].id));
            }
        }
        outcome(created)
    }
}

} // verus!
