use crate::domain::entity::timestamp::Timestamp;
use crate::domain::entity::todo::{
    is_hyphenated_uuid_v4, Todo, TodoCan, TodoModel, TodoOperation, TodoView, TodoViewModel,
};
use crate::domain::exception::TodoException;
use crate::domain::repository::todo_repository::{
    filtered, has_id, is_page, lemma_position_of_known_id, models, position_of, TodoRepository,
    MAX_RECORDS,
};
use crate::infra::api_response::HttpStatus;
use crate::infra::controller::helper::{
    extract_status_from_header, header_view, pair_views, status_of_headers,
};
use crate::infra::server::UPDATE_EVENT;
use crate::usecase::count_todos_usecase::CountTodosUsecase;
use crate::usecase::create_todo_usecase::{
    holds_drawn_shape, is_create_failure, CreateTodoParams, CreateTodoUsecase,
};
use crate::usecase::delete_todo_usecase::DeleteTodoUsecase;
use crate::usecase::get_all_todos_usecase::{GetAllTodosUsecase, LIST_TAKE};
use crate::usecase::mark_as_done_todo_usecase::MarkAsDoneTodoUsecase;
use crate::usecase::status_filter::{asked_status, is_text, status_filter_of};
use vstd::prelude::*;

verus! {

/// The front page.
#[derive(Debug)]
pub struct IndexTemplate {
    pub num_items: i64,
}

/// The page that follows the todos as they change.
#[derive(Debug)]
pub struct StreamTmpl {
    pub num_items: i64,
    pub todos: Vec<TodoView>,
}

/// One changed todo, as it is sent to the page that asked for the change
/// and to every open page.
#[derive(Debug)]
pub struct UpdateTodoTmpl {
    pub todo: TodoView,
}

impl Clone for UpdateTodoTmpl {
    fn clone(&self) -> (copy: UpdateTodoTmpl)
        ensures
            copy == *self,
    {
        UpdateTodoTmpl { todo: self.todo.clone() }
    }
}

#[derive(Debug)]
pub struct SearchTodosQuery {
    pub status: Option<String>,
}

/// The list of todos of a page.
#[derive(Debug)]
pub struct ListTodosTmpl {
    pub todos: Vec<TodoView>,
    pub num_items: i64,
}

#[derive(Debug)]
pub struct CreateTodoForm {
    pub description: String,
}

/// Views as mathematical values.
pub open spec fn view_models(views: Seq<TodoView>) -> Seq<TodoViewModel> {
    views.map_values(|view: TodoView| view@)
}

/// The views of todos after one operation, for one permission.
pub open spec fn views_of(todos: Seq<TodoModel>, kind: TodoOperation, can: TodoCan) -> Seq<
    TodoViewModel,
> {
    todos.map_values(|todo: TodoModel| TodoViewModel::of(todo, kind, can))
}

/// The headers of an answer to a change: the page is told to count again,
/// and, where `reswap` holds, to take the changed todo off its list.
pub open spec fn change_headers(reswap: bool) -> Seq<(Seq<char>, Seq<char>)> {
    if reswap {
        seq![("HX-Trigger-After-Swap"@, "watch-count-todos"@), ("HX-Reswap"@, "delete"@)]
    } else {
        seq![("HX-Trigger-After-Swap"@, "watch-count-todos"@)]
    }
}

/// A page shows the newest todos under a filter, for one permission, and
/// counts the todos under that filter; where the repository fails to count,
/// the page counts none.
pub open spec fn shows_page(
    records: Seq<TodoModel>,
    dependable: bool,
    done: Option<bool>,
    can: TodoCan,
    views: Seq<TodoViewModel>,
    num_items: int,
) -> bool {
    &&& exists|todos: Seq<TodoModel>| #[trigger]
        is_page(records, done, LIST_TAKE as int, todos) && views == views_of(
            todos,
            TodoOperation::Read,
            can,
        )
    &&& num_items == filtered(records, done).len() || (!dependable && num_items == 0)
}

/// The views of the todos, in their order.
pub fn todo_views(todos: &Vec<Todo>, kind: TodoOperation, can: TodoCan) -> (views: Vec<TodoView>)
    ensures
        view_models(views@) == views_of(models(todos@), kind, can),
{
    let mut views: Vec<TodoView> = Vec::new();
    let mut i: usize = 0;
    while i < todos.len()
        invariant
            i <= todos.len(),
            views@.len() == i,
            forall|j: int|
                0 <= j < i ==> (#[trigger] views@[j])@ == TodoViewModel::of(todos@[j]@, kind, can),
        decreases todos.len() - i,
    {
        views.push(TodoView::new(todos[i].clone(), kind, can));
        i += 1;
    }
    assert(view_models(views@) =~= views_of(models(todos@), kind, can));
    views
}

/// The headers of an answer to a change.
pub fn make_change_headers(reswap: bool) -> (headers: Vec<(String, String)>)
    ensures
        pair_views(headers@) == change_headers(reswap),
{
    let mut headers: Vec<(String, String)> = Vec::new();
    headers.push((String::from_str("HX-Trigger-After-Swap"), String::from_str("watch-count-todos")));
    if reswap {
        headers.push((String::from_str("HX-Reswap"), String::from_str("delete")));
    }
    assert(pair_views(headers@) =~= change_headers(reswap));
    headers
}

/// The page that follows the todos: the given todos to read only, and the
/// given count.
pub fn stream_page(todos: &Vec<Todo>, count: i64) -> (page: StreamTmpl)
    ensures
        page.num_items == count,
        view_models(page.todos@) == views_of(models(todos@), TodoOperation::Read, TodoCan::Read),
{
    StreamTmpl { num_items: count, todos: todo_views(todos, TodoOperation::Read, TodoCan::Read) }
}

/// The list of a page: the given todos to change, and the given count.
pub fn list_page(todos: &Vec<Todo>, count: i64) -> (page: ListTodosTmpl)
    ensures
        page.num_items == count,
        view_models(page.todos@) == views_of(
            models(todos@),
            TodoOperation::Read,
            TodoCan::Write,
        ),
{
    ListTodosTmpl { todos: todo_views(todos, TodoOperation::Read, TodoCan::Write), num_items: count }
}

/// The status word that a list is asked for: the one of the query, or else
/// the one of the page the request came from.
pub fn list_status_word(query: Option<String>, header: Option<String>) -> (status: Option<String>)
    ensures
        status == (match query {
            Some(word) => Some(word),
            None => header,
        }),
{
    match query {
        Some(word) => Some(word),
        None => header,
    }
}

/// The answer to the creation of a todo: its view, to change, and the page
/// is told to count again.
pub fn created_answer(todo: Todo) -> (answer: (Vec<(String, String)>, UpdateTodoTmpl))
    ensures
        pair_views(answer.0@) == change_headers(false),
        answer.1.todo@ == TodoViewModel::of(todo@, TodoOperation::Create, TodoCan::Write),
{
    let todo_view = TodoView::new(todo, TodoOperation::Create, TodoCan::Write);
    (make_change_headers(false), UpdateTodoTmpl { todo: todo_view })
}

/// The operation that marking a todo done, or not done, is.
pub open spec fn mark_kind(done: bool) -> TodoOperation {
    if done {
        TodoOperation::MarkAsDone
    } else {
        TodoOperation::MarkAsUndone
    }
}

/// The status of the list that a todo leaves when it is marked done, or not
/// done.
pub open spec fn left_status(done: bool) -> Seq<char> {
    if done {
        "pending"@
    } else {
        "done"@
    }
}

/// The answer to the marking of a todo: its view, to change; the page is
/// told to count again and, where it shows the list that the todo leaves,
/// to take the todo off it.
pub fn marked_answer(todo: Todo, done: bool, shown: Option<String>) -> (answer: (
    Vec<(String, String)>,
    UpdateTodoTmpl,
))
    ensures
        pair_views(answer.0@) == change_headers(asked_status(shown) == Some(left_status(done))),
        answer.1.todo@ == TodoViewModel::of(todo@, mark_kind(done), TodoCan::Write),
{
    let kind = if done {
        TodoOperation::MarkAsDone
    } else {
        TodoOperation::MarkAsUndone
    };
    let todo_view = TodoView::new(todo, kind, TodoCan::Write);
    let reswap = match shown {
        Some(word) => if done {
            is_text(&word, "pending")
        } else {
            is_text(&word, "done")
        },
        None => false,
    };
    (make_change_headers(reswap), UpdateTodoTmpl { todo: todo_view })
}

/// How the deletion of a todo from a page went.
#[derive(Debug)]
pub enum Removal {
    /// No todo was found to delete.
    Missing,
    /// The todo was found, and the deletion failed.
    Failed,
    /// The todo was deleted.
    Deleted(Todo),
}

/// The answer to the deletion of a todo from a page: status 422 where none
/// was found, 500 where the deletion failed, else 200 with the view of the
/// deleted todo for the open pages, and the page takes it off its list.
pub fn removal_answer(removal: Removal) -> (answer: (
    HttpStatus,
    Vec<(String, String)>,
    Option<UpdateTodoTmpl>,
))
    ensures
        match removal {
            Removal::Missing => answer.0.value() == 422 && answer.1@.len() == 0 && answer.2 is None,
            Removal::Failed => answer.0.value() == 500 && answer.1@.len() == 0 && answer.2 is None,
            Removal::Deleted(todo) => {
                &&& answer.0.value() == 200
                &&& pair_views(answer.1@) == change_headers(true)
                &&& answer.2 matches Some(update) && update.todo@ == TodoViewModel::of(
                    todo@,
                    TodoOperation::Delete,
                    TodoCan::Write,
                )
            },
        },
{
    match removal {
        Removal::Missing => (HttpStatus::unprocessable_entity(), Vec::new(), None),
        Removal::Failed => (HttpStatus::internal_server_error(), Vec::new(), None),
        Removal::Deleted(todo) => {
            let update = UpdateTodoTmpl {
                todo: TodoView::new(todo, TodoOperation::Delete, TodoCan::Write),
            };
            (HttpStatus::ok(), make_change_headers(true), Some(update))
        },
    }
}

/// `GET /`: the front page, which counts no todos yet.
pub fn render_index_ctrl() -> (page: IndexTemplate)
    ensures
        page.num_items == 0,
{
    IndexTemplate { num_items: 0 }
}

/// `GET /stream`: the newest todos, to read only, and the number of all
/// todos. Fails where the repository fails to list.
pub fn stream_ctrl<R: TodoRepository>(todo_repo: &R) -> (page: Result<StreamTmpl, ()>)
    ensures
        match page {
            Ok(shown) => shows_page(
                todo_repo.records(),
                todo_repo.dependable(),
                None,
                TodoCan::Read,
                view_models(shown.todos@),
                shown.num_items as int,
            ),
            Err(_) => !todo_repo.dependable(),
        },
{
    let get_all_todos_usecase = GetAllTodosUsecase::new(todo_repo);
    let todos = match get_all_todos_usecase.exec(None) {
        Ok(todos) => todos,
        Err(_) => {
            return Err(());
        },
    };
    let count_todos_usecase = CountTodosUsecase::new(todo_repo);
    let count = count_todos_usecase.exec(None);
    let shown = stream_page(&todos, count);
    assert(is_page(todo_repo.records(), None, LIST_TAKE as int, models(todos@)));
    Ok(shown)
}

/// The status word that a list is asked for: the one of the query, or else
/// the one of the page the request came from.
pub open spec fn list_status(
    query: Option<Seq<char>>,
    hx_current_url: Option<Seq<char>>,
    referer: Option<Seq<char>>,
) -> Option<Seq<char>> {
    if query is Some {
        query
    } else {
        status_of_headers(hx_current_url, referer)
    }
}

/// `GET /list_todos`: the newest todos that the status word asks for, to
/// change, and how many todos the word asks for.
pub fn list_todos_ctrl<R: TodoRepository>(
    todo_repo: &R,
    query: SearchTodosQuery,
    hx_current_url: Option<&str>,
    referer: Option<&str>,
) -> (page: Result<ListTodosTmpl, TodoException>)
    ensures
        match page {
            Ok(shown) => shows_page(
                todo_repo.records(),
                todo_repo.dependable(),
                status_filter_of(
                    list_status(
                        asked_status(query.status),
                        header_view(hx_current_url),
                        header_view(referer),
                    ),
                ),
                TodoCan::Write,
                view_models(shown.todos@),
                shown.num_items as int,
            ),
            Err(exception) => exception == TodoException::Unknown && !todo_repo.dependable(),
        },
{
    let get_all_todos_usecase = GetAllTodosUsecase::new(todo_repo);
    let header_status = extract_status_from_header(hx_current_url, referer);
    let status = list_status_word(query.status, header_status);
    let todos = match get_all_todos_usecase.exec(status.as_ref()) {
        Ok(todos) => todos,
        Err(exception) => {
            return Err(exception);
        },
    };
    let count_todos_usecase = CountTodosUsecase::new(todo_repo);
    let count = count_todos_usecase.exec(status.as_ref());
    let shown = list_page(&todos, count);
    assert(is_page(
        todo_repo.records(),
        status_filter_of(
            list_status(
                asked_status(query.status),
                header_view(hx_current_url),
                header_view(referer),
            ),
        ),
        LIST_TAKE as int,
        models(todos@),
    ));
    Ok(shown)
}

/// `POST /create_todo`: stores a new todo with the description of the form
/// and answers with its view, to change; the page is told to count again.
pub fn create_todo_ctrl<R: TodoRepository>(todo_repo: &mut R, form: CreateTodoForm) -> (answer:
    Result<(Vec<(String, String)>, UpdateTodoTmpl), TodoException>)
    ensures
        final(todo_repo).dependable() == old(todo_repo).dependable(),
        match answer {
            Ok((headers, update)) => {
                let created = final(todo_repo).records().last();
                &&& final(todo_repo).records() == old(todo_repo).records().push(created)
                &&& created == TodoModel::fresh(created.id, form.description@, created.created_at)
                &&& is_hyphenated_uuid_v4(created.id)
                &&& !has_id(old(todo_repo).records(), created.id)
                &&& update.todo@ == TodoViewModel::of(
                    created,
                    TodoOperation::Create,
                    TodoCan::Write,
                )
                &&& pair_views(headers@) == change_headers(false)
            },
            Err(exception) => is_create_failure(
                old(todo_repo).records(),
                final(todo_repo).records(),
                old(todo_repo).dependable(),
                exception,
            ),
        },
        old(todo_repo).dependable() && old(todo_repo).records().len() < MAX_RECORDS
            && !holds_drawn_shape(old(todo_repo).records()) ==> answer is Ok,
{
    let mut usecase = CreateTodoUsecase::new(todo_repo);
    let todo = match usecase.exec(CreateTodoParams { description: form.description }) {
        Ok(todo) => todo,
        Err(exception) => {
            return Err(exception);
        },
    };
    Ok(created_answer(todo))
}

/// What a page handler that marks a todo answers: the view of the marked
/// todo, to change, and the headers; the page takes the todo off its list
/// where it shows the list that the todo leaves.
pub open spec fn is_mark_update(
    before: Seq<TodoModel>,
    after: Seq<TodoModel>,
    dependable: bool,
    id: Seq<char>,
    done: bool,
    shown: Option<Seq<char>>,
    answer: Result<(Vec<(String, String)>, UpdateTodoTmpl), TodoException>,
) -> bool {
    match answer {
        Ok((headers, update)) => {
            let at = position_of(before, id);
            &&& has_id(before, id)
            &&& exists|now: Timestamp|
                {
                    &&& after == before.update(at, #[trigger] before[at].marked(done, now))
                    &&& update.todo@ == TodoViewModel::of(
                        before[at].marked(done, now),
                        mark_kind(done),
                        TodoCan::Write,
                    )
                }
            &&& pair_views(headers@) == change_headers(shown == Some(left_status(done)))
        },
        Err(TodoException::NotFound) => !has_id(before, id) && after == before,
        Err(TodoException::Unknown) => !dependable && after == before,
        Err(TodoException::AlreadyExists) => false,
    }
}

/// `POST /mark_as_done/{id}`: marks the todo done as of now. A page that
/// shows the pending todos takes it off its list.
pub fn mark_as_done_todo_ctrl<R: TodoRepository>(
    todo_repo: &mut R,
    id: String,
    hx_current_url: Option<&str>,
    referer: Option<&str>,
) -> (answer: Result<(Vec<(String, String)>, UpdateTodoTmpl), TodoException>)
    ensures
        final(todo_repo).dependable() == old(todo_repo).dependable(),
        is_mark_update(
            old(todo_repo).records(),
            final(todo_repo).records(),
            old(todo_repo).dependable(),
            id@,
            true,
            status_of_headers(header_view(hx_current_url), header_view(referer)),
            answer,
        ),
{
    let mut mark_as_done_usecase = MarkAsDoneTodoUsecase::new(todo_repo);
    let todo = match mark_as_done_usecase.exec(id, true) {
        Ok(todo) => todo,
        Err(exception) => {
            return Err(exception);
        },
    };
    let ghost marked = todo@;
    let status = extract_status_from_header(hx_current_url, referer);
    let answer = marked_answer(todo, true, status);
    proof {
        let before = old(todo_repo).records();
        let at = position_of(before, id@);
        assert(marked == before[at].marked(true, marked.updated_at));
    }
    Ok(answer)
}

/// `POST /mark_as_undone/{id}`: marks the todo not done as of now. A page
/// that shows the done todos takes it off its list.
pub fn mark_as_undone_todo_ctrl<R: TodoRepository>(
    todo_repo: &mut R,
    id: String,
    hx_current_url: Option<&str>,
    referer: Option<&str>,
) -> (answer: Result<(Vec<(String, String)>, UpdateTodoTmpl), TodoException>)
    ensures
        final(todo_repo).dependable() == old(todo_repo).dependable(),
        is_mark_update(
            old(todo_repo).records(),
            final(todo_repo).records(),
            old(todo_repo).dependable(),
            id@,
            false,
            status_of_headers(header_view(hx_current_url), header_view(referer)),
            answer,
        ),
{
    let mut mark_as_done_usecase = MarkAsDoneTodoUsecase::new(todo_repo);
    let todo = match mark_as_done_usecase.exec(id, false) {
        Ok(todo) => todo,
        Err(exception) => {
            return Err(exception);
        },
    };
    let ghost marked = todo@;
    let status = extract_status_from_header(hx_current_url, referer);
    let answer = marked_answer(todo, false, status);
    proof {
        let before = old(todo_repo).records();
        let at = position_of(before, id@);
        assert(marked == before[at].marked(false, marked.updated_at));
    }
    Ok(answer)
}

/// `DELETE /remove_todo/{id}`: deletes the todo. Status 422 where there is
/// none to find, 500 where the deletion fails, else 200 with the view of the
/// deleted todo for the open pages, and the page takes it off its list.
pub fn delete_todo_ctrl<R: TodoRepository>(todo_repo: &mut R, id: String) -> (answer: (
    HttpStatus,
    Vec<(String, String)>,
    Option<UpdateTodoTmpl>,
))
    ensures
        final(todo_repo).dependable() == old(todo_repo).dependable(),
        answer.0.value() == 200 || answer.0.value() == 422 || answer.0.value() == 500,
        answer.0.value() == 200 ==> {
            let before = old(todo_repo).records();
            let at = position_of(before, id@);
            &&& has_id(before, id@)
            &&& final(todo_repo).records() == before.remove(at)
            &&& answer.2 matches Some(update) && update.todo@ == TodoViewModel::of(
                before[at],
                TodoOperation::Delete,
                TodoCan::Write,
            )
            &&& pair_views(answer.1@) == change_headers(true)
        },
        answer.0.value() != 200 ==> {
            &&& final(todo_repo).records() == old(todo_repo).records()
            &&& answer.1@.len() == 0
            &&& answer.2 is None
        },
        !has_id(old(todo_repo).records(), id@) ==> answer.0.value() == 422,
        answer.0.value() == 422 ==> !has_id(old(todo_repo).records(), id@) || !old(
            todo_repo,
        ).dependable(),
        answer.0.value() == 500 ==> has_id(old(todo_repo).records(), id@) && !old(
            todo_repo,
        ).dependable(),
        old(todo_repo).dependable() ==> (answer.0.value() == 200 <==> has_id(
            old(todo_repo).records(),
            id@,
        )),
{
    let todo = match todo_repo.find_by_id(id) {
        Ok(todo) => todo,
        Err(_) => {
            return removal_answer(Removal::Missing);
        },
    };
    proof {
        lemma_position_of_known_id(old(todo_repo).records(), id@);
    }
    let mut delete_todo_usecase = DeleteTodoUsecase::new(todo_repo);
    match delete_todo_usecase.exec(todo.id.clone()) {
        Ok(_) => (),
        Err(_) => {
            return removal_answer(Removal::Failed);
        },
    };
    removal_answer(Removal::Deleted(todo))
}

/// `GET /count_todos`: the number of todos that the page the request came
/// from was showing.
pub fn count_todos_ctrl<R: TodoRepository>(
    todo_repo: &R,
    hx_current_url: Option<&str>,
    referer: Option<&str>,
) -> (count: i64)
    ensures
        count == filtered(
            todo_repo.records(),
            status_filter_of(status_of_headers(header_view(hx_current_url), header_view(referer))),
        ).len() || (!todo_repo.dependable() && count == 0),
{
    let status: Option<String> = extract_status_from_header(hx_current_url, referer);
    let count_todos_usecase = CountTodosUsecase::new(todo_repo);
    count_todos_usecase.exec(status.as_ref())
}

/// `GET /todos_sse`: what an open page is sent for an update, under the
/// name [`UPDATE_EVENT`]: the changed todo, to read only.
pub fn todos_stream(message: UpdateTodoTmpl) -> (event: (&'static str, UpdateTodoTmpl))
    ensures
        event.0@ == UPDATE_EVENT@,
        event.1.todo@ == message.todo@.with_can(TodoCan::Read),
{
    let mut message = message;
    message.todo.can = TodoCan::Read.to_upper_string();
    (UPDATE_EVENT, message)
}

} // verus!
