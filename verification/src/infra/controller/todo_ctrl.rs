use crate::domain::entity::todo::{is_hyphenated_uuid_v4, Todo, TodoModel};
use crate::domain::exception::TodoException;
use crate::domain::repository::todo_repository::{
    filtered, has_id, is_page, models, position_of, TodoRepository, MAX_RECORDS,
};
use crate::infra::api_response::{
    ApiResponse, ApiResponseData, ApiResponseError, HttpStatus, ListInformations, TodoParams,
};
use crate::infra::controller::helper::{
    extract_status_from_header, header_view, status_of_headers,
};
use crate::usecase::count_todos_usecase::CountTodosUsecase;
use crate::usecase::create_todo_usecase::{
    holds_drawn_shape, is_create_failure, CreateTodoParams, CreateTodoUsecase,
};
use crate::usecase::delete_todo_usecase::DeleteTodoUsecase;
use crate::usecase::get_all_todos_usecase::{GetAllTodosUsecase, LIST_TAKE};
use crate::usecase::mark_as_done_todo_usecase::MarkAsDoneTodoUsecase;
use crate::usecase::status_filter::{asked_status, status_filter_of};
use vstd::prelude::*;

verus! {

#[derive(Debug)]
pub struct GetAllTodosQuery {
    pub status: Option<String>,
}

/// The answer that carries what a use case gave, under the given status, or
/// the failure with the message of its exception.
pub fn respond_with<T>(outcome: Result<T, TodoException>, status: HttpStatus) -> (answer:
    ApiResponse<T, TodoParams>)
    ensures
        match outcome {
            Ok(data) => answer matches Ok(given) && given == (ApiResponseData::<
                T,
                TodoParams,
            >::Data { data, informations: None, status }),
            Err(exception) => answer matches Err(error) && error.0@ == exception.message(),
        },
{
    match outcome {
        Ok(data) => Ok(ApiResponseData::success_with_data(data, None, status)),
        Err(exception) => Err(ApiResponseError::from_exception(exception)),
    }
}

/// The answer to a deletion: the bare status 204, or the failure with the
/// message of its exception.
pub fn respond_to_deletion(outcome: Result<(), TodoException>) -> (answer: ApiResponse<
    (),
    TodoParams,
>)
    ensures
        match outcome {
            Ok(_) => answer matches Ok(ApiResponseData::StatusCode(status)) && status.value()
                == 204,
            Err(exception) => answer matches Err(error) && error.0@ == exception.message(),
        },
{
    match outcome {
        Ok(_) => Ok(ApiResponseData::status_code(HttpStatus::no_content())),
        Err(exception) => Err(ApiResponseError::from_exception(exception)),
    }
}

/// The answer that carries a list of todos under the status 200, or the
/// failure with the message of its exception.
pub fn respond_with_list<T>(outcome: Result<Vec<T>, TodoException>) -> (answer: ApiResponse<
    Vec<T>,
    ListInformations,
>)
    ensures
        match outcome {
            Ok(data) => answer matches Ok(ApiResponseData::Data { data: sent, informations, status })
                && sent == data && informations is None && status.value() == 200,
            Err(exception) => answer matches Err(error) && error.0@ == exception.message(),
        },
{
    match outcome {
        Ok(data) => Ok(ApiResponseData::success_with_data(data, None, HttpStatus::ok())),
        Err(exception) => Err(ApiResponseError::from_exception(exception)),
    }
}

/// `POST /api/todos`: stores a new todo with the description and answers
/// with it under the status 201; a failure goes out with the message of
/// its exception.
pub fn create_todo_ctrl<R: TodoRepository>(todo_repo: &mut R, params: CreateTodoParams) -> (answer:
    ApiResponse<Todo, TodoParams>)
    ensures
        final(todo_repo).dependable() == old(todo_repo).dependable(),
        match answer {
            Ok(ApiResponseData::Data { data: todo, informations, status }) => {
                &&& status.value() == 201
                &&& informations is None
                &&& todo@ == TodoModel::fresh(todo@.id, params.description@, todo@.created_at)
                &&& is_hyphenated_uuid_v4(todo@.id)
                &&& !has_id(old(todo_repo).records(), todo@.id)
                &&& final(todo_repo).records() == old(todo_repo).records().push(todo@)
            },
            Ok(_) => false,
            Err(error) => exists|exception: TodoException|
                error.0@ == #[trigger] exception.message() && is_create_failure(
                    old(todo_repo).records(),
                    final(todo_repo).records(),
                    old(todo_repo).dependable(),
                    exception,
                ),
        },
        old(todo_repo).dependable() && old(todo_repo).records().len() < MAX_RECORDS
            && !holds_drawn_shape(old(todo_repo).records()) ==> answer is Ok,
{
    let mut create_todo_usecase = CreateTodoUsecase::new(todo_repo);
    let todo = create_todo_usecase.exec(params);
    respond_with(todo, HttpStatus::created())
}

/// `GET /api/todos`: answers with the first todos that the status word of
/// the query asks for, newest first, under the status 200.
pub fn get_all_todos_ctrl<R: TodoRepository>(todo_repo: &R, query: GetAllTodosQuery) -> (answer:
    ApiResponse<Vec<Todo>, ListInformations>)
    ensures
        match answer {
            Ok(ApiResponseData::Data { data: todos, informations, status }) => {
                &&& status.value() == 200
                &&& informations is None
                &&& is_page(
                    todo_repo.records(),
                    status_filter_of(asked_status(query.status)),
                    LIST_TAKE as int,
                    models(todos@),
                )
            },
            Ok(_) => false,
            Err(error) => error.0@ == TodoException::Unknown.message()
                && !todo_repo.dependable(),
        },
{
    let get_all_todos_usecase = GetAllTodosUsecase::new(todo_repo);
    let todos = get_all_todos_usecase.exec(query.status.as_ref());
    respond_with_list(todos)
}

/// `DELETE /api/todos/{id}`: deletes the todo and answers with the bare
/// status 204.
pub fn delete_todo_ctrl<R: TodoRepository>(todo_repo: &mut R, id: String) -> (answer: ApiResponse<
    (),
    TodoParams,
>)
    ensures
        final(todo_repo).dependable() == old(todo_repo).dependable(),
        match answer {
            Ok(ApiResponseData::StatusCode(status)) => {
                &&& status.value() == 204
                &&& has_id(old(todo_repo).records(), id@)
                &&& final(todo_repo).records() == old(todo_repo).records().remove(
                    position_of(old(todo_repo).records(), id@),
                )
            },
            Ok(_) => false,
            Err(error) => {
                &&& final(todo_repo).records() == old(todo_repo).records()
                &&& if has_id(old(todo_repo).records(), id@) {
                    error.0@ == TodoException::Unknown.message() && !old(todo_repo).dependable()
                } else {
                    error.0@ == TodoException::NotFound.message() || (error.0@
                        == TodoException::Unknown.message() && !old(todo_repo).dependable())
                }
            },
        },
{
    let mut delete_todo_usecase = DeleteTodoUsecase::new(todo_repo);
    let deleted = delete_todo_usecase.exec(id);
    respond_to_deletion(deleted)
}

/// What a handler that marks a todo answers: the marked todo under the
/// status 200, or the failure.
pub open spec fn is_mark_answer(
    before: Seq<TodoModel>,
    after: Seq<TodoModel>,
    dependable: bool,
    id: Seq<char>,
    done: bool,
    answer: ApiResponse<Todo, TodoParams>,
) -> bool {
    match answer {
        Ok(ApiResponseData::Data { data: todo, informations, status }) => {
            let at = position_of(before, id);
            &&& status.value() == 200
            &&& informations is None
            &&& has_id(before, id)
            &&& todo@ == before[at].marked(done, todo@.updated_at)
            &&& after == before.update(at, todo@)
        },
        Ok(_) => false,
        Err(error) => {
            &&& after == before
            &&& if has_id(before, id) {
                error.0@ == TodoException::Unknown.message() && !dependable
            } else {
                error.0@ == TodoException::NotFound.message() || (error.0@
                    == TodoException::Unknown.message() && !dependable)
            }
        },
    }
}

/// `PATCH /api/todos/{id}/mark_as_done`: marks the todo done as of now.
pub fn mark_as_done_todo_ctrl<R: TodoRepository>(todo_repo: &mut R, id: String) -> (answer:
    ApiResponse<Todo, TodoParams>)
    ensures
        final(todo_repo).dependable() == old(todo_repo).dependable(),
        is_mark_answer(
            old(todo_repo).records(),
            final(todo_repo).records(),
            old(todo_repo).dependable(),
            id@,
            true,
            answer,
        ),
{
    let mut mark_as_done_usecase = MarkAsDoneTodoUsecase::new(todo_repo);
    let todo = mark_as_done_usecase.exec(id, true);
    respond_with(todo, HttpStatus::ok())
}

/// `PATCH /api/todos/{id}/mark_as_undone`: marks the todo not done as of
/// now.
pub fn mark_as_undone_todo_ctrl<R: TodoRepository>(todo_repo: &mut R, id: String) -> (answer:
    ApiResponse<Todo, TodoParams>)
    ensures
        final(todo_repo).dependable() == old(todo_repo).dependable(),
        is_mark_answer(
            old(todo_repo).records(),
            final(todo_repo).records(),
            old(todo_repo).dependable(),
            id@,
            false,
            answer,
        ),
{
    let mut mark_as_done_usecase = MarkAsDoneTodoUsecase::new(todo_repo);
    let todo = mark_as_done_usecase.exec(id, false);
    respond_with(todo, HttpStatus::ok())
}

/// `GET /api/todos/count`: answers with the number of todos that the page
/// the request came from was showing, under the status 200.
pub fn count_todos_ctrl<R: TodoRepository>(
    todo_repo: &R,
    hx_current_url: Option<&str>,
    referer: Option<&str>,
) -> (answer: ApiResponse<i64, TodoParams>)
    ensures
        answer matches Ok(ApiResponseData::Data { data: count, informations, status }) && {
            &&& status.value() == 200
            &&& informations is None
            &&& count == filtered(
                todo_repo.records(),
                status_filter_of(
                    status_of_headers(header_view(hx_current_url), header_view(referer)),
                ),
            ).len() || (!todo_repo.dependable() && count == 0)
        },
{
    let status: Option<String> = extract_status_from_header(hx_current_url, referer);
    let count_todos_usecase = CountTodosUsecase::new(todo_repo);
    let count = count_todos_usecase.exec(status.as_ref());
    Ok(ApiResponseData::success_with_data(count, None, HttpStatus::ok()))
}

} // verus!
