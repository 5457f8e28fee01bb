use todoapp_server::domain::entity::timestamp::Timestamp;
use todoapp_server::domain::entity::todo::{Todo, TodoCan, TodoOperation};
use todoapp_server::domain::exception::TodoException;
use todoapp_server::domain::repository::todo_repository::TodoRepository;
use todoapp_server::infra::api_response::{ApiResponseData, HttpStatus};
use todoapp_server::infra::controller::catchers_ctrl::not_found_ctrl;
use todoapp_server::infra::controller::common_ctrl::{
    asset_path, health, static_handler, StaticFile, StaticResponse,
};
use todoapp_server::infra::controller::common_views_ctrl::{
    render_hello_ctrl, say_hello, HelloQuery,
};
use todoapp_server::infra::controller::helper::{extract_status_from_header, status_of_pairs};
use todoapp_server::infra::controller::todo_ctrl::{
    count_todos_ctrl, create_todo_ctrl, delete_todo_ctrl, get_all_todos_ctrl,
    mark_as_done_todo_ctrl, mark_as_undone_todo_ctrl, respond_to_deletion, respond_with,
    respond_with_list, GetAllTodosQuery,
};
use todoapp_server::infra::controller::todos_views_ctrl::{
    created_answer, list_page, list_status_word, list_todos_ctrl, make_change_headers,
    marked_answer, removal_answer, render_index_ctrl, stream_ctrl, stream_page, todo_views,
    todos_stream, CreateTodoForm, Removal, SearchTodosQuery, UpdateTodoTmpl,
};
use todoapp_server::infra::repository::todo_inmemory_repo::TodoInMemoryRepository;
use todoapp_server::infra::server::{is_switched_on, BROADCAST_CAPACITY, UPDATE_EVENT};
use todoapp_server::usecase::create_todo_usecase::CreateTodoParams;

fn todo(id: &str, description: &str, secs: i64) -> Todo {
    Todo::from_parts(id.to_string(), description.to_string(), Timestamp::new(secs, 0))
}

fn seeded() -> TodoInMemoryRepository {
    let mut repo = TodoInMemoryRepository::empty();
    repo.create_todo(todo("a", "milk", 1_672_531_200)).unwrap();
    repo.create_todo(todo("b", "bread", 1_672_531_260)).unwrap();
    let mut eggs = todo("c", "eggs", 1_672_531_320);
    eggs.mark_as_done_at(true, Timestamp::new(1_672_531_380, 0));
    repo.create_todo(eggs).unwrap();
    repo
}

fn header(name: &str, value: &str) -> (String, String) {
    (name.to_string(), value.to_string())
}

#[test]
fn the_status_is_read_from_the_url_of_the_page() {
    assert_eq!(
        extract_status_from_header(Some("http://localhost:3000/?status=done"), None),
        Some("done".to_string())
    );
    assert_eq!(
        extract_status_from_header(None, Some("http://localhost:3000/list?status=pending")),
        Some("pending".to_string())
    );
    assert_eq!(
        extract_status_from_header(
            Some("http://localhost:3000/?status=done"),
            Some("http://localhost:3000/?status=pending")
        ),
        Some("done".to_string())
    );
    assert_eq!(
        extract_status_from_header(
            Some("http://localhost:3000/"),
            Some("http://localhost:3000/?status=pending")
        ),
        None
    );
    assert_eq!(extract_status_from_header(None, None), None);
}

#[test]
fn the_last_status_of_a_query_counts() {
    assert_eq!(
        extract_status_from_header(Some("http://h/?status=done&x=1&status=pending"), None),
        Some("pending".to_string())
    );
    assert_eq!(
        extract_status_from_header(Some("http://h/?a=1&status=a%20b+c&b=2#frag"), None),
        Some("a b c".to_string())
    );
    assert_eq!(
        extract_status_from_header(Some("http://h/?Status=done"), None),
        None
    );
    assert_eq!(
        extract_status_from_header(Some("http://h/?status"), None),
        Some(String::new())
    );
    let pairs = vec![
        header("status", "first"),
        header("other", "x"),
        header("status", "last"),
        header("more", "y"),
    ];
    assert_eq!(status_of_pairs(&pairs), Some("last".to_string()));
    assert_eq!(status_of_pairs(&vec![header("other", "x")]), None);
    assert_eq!(status_of_pairs(&Vec::new()), None);
}

#[test]
fn the_status_is_what_a_map_of_the_query_holds() {
    for url in [
        "http://h/?status=done",
        "http://h/?status=a&status=b",
        "http://h/p?x=1",
        "https://example.com/a/b?status=%F0%9F%98%80&status=",
    ] {
        let map: std::collections::HashMap<String, String> =
            url::Url::parse(url).unwrap().query_pairs().into_owned().collect();
        assert_eq!(extract_status_from_header(Some(url), None), map.get("status").cloned());
    }
}

#[test]
fn a_header_that_is_no_url_gives_no_status() {
    assert_eq!(extract_status_from_header(Some("not a url"), None), None);
    assert_eq!(extract_status_from_header(Some("/list?status=done"), None), None);
    assert_eq!(
        extract_status_from_header(Some(""), Some("http://h/?status=done")),
        None
    );
}

#[test]
fn api_create_answers_201() {
    let mut repo = TodoInMemoryRepository::empty();
    let answer =
        create_todo_ctrl(&mut repo, CreateTodoParams { description: "milk".to_string() });
    match answer {
        Ok(ApiResponseData::Data { data, informations, status }) => {
            assert_eq!(status.as_u16(), 201);
            assert!(informations.is_none());
            assert_eq!(data.description, "milk");
            assert_eq!(repo.find_by_id(data.id.clone()).unwrap().description, "milk");
        },
        _ => panic!("data was expected"),
    }
}

#[test]
fn api_list_answers_200_with_the_page() {
    let repo = seeded();
    let answer = get_all_todos_ctrl(&repo, GetAllTodosQuery { status: None });
    match answer {
        Ok(ApiResponseData::Data { data, status, .. }) => {
            assert_eq!(status.as_u16(), 200);
            let names: Vec<&str> = data.iter().map(|t| t.description.as_str()).collect();
            assert_eq!(names, vec!["eggs", "bread", "milk"]);
        },
        _ => panic!("data was expected"),
    }
    let answer =
        get_all_todos_ctrl(&repo, GetAllTodosQuery { status: Some("pending".to_string()) });
    match answer {
        Ok(ApiResponseData::Data { data, .. }) => {
            let names: Vec<&str> = data.iter().map(|t| t.description.as_str()).collect();
            assert_eq!(names, vec!["bread", "milk"]);
        },
        _ => panic!("data was expected"),
    }
}

#[test]
fn api_delete_answers_204_and_then_422() {
    let mut repo = seeded();
    let answer = delete_todo_ctrl(&mut repo, "a".to_string());
    match answer {
        Ok(ApiResponseData::StatusCode(status)) => assert_eq!(status.as_u16(), 204),
        _ => panic!("a bare status was expected"),
    }
    let again = delete_todo_ctrl(&mut repo, "a".to_string());
    let (status, body) = again.err().unwrap().respond();
    assert_eq!(status.as_u16(), 422);
    assert_eq!(body.status, "422 Unprocessable Entity");
    assert_eq!(body.error, "Todo not exists");
    assert_eq!(repo.count(None).unwrap(), 2);
}

#[test]
fn api_mark_answers_200_or_422() {
    let mut repo = seeded();
    match mark_as_done_todo_ctrl(&mut repo, "a".to_string()) {
        Ok(ApiResponseData::Data { data, status, .. }) => {
            assert_eq!(status.as_u16(), 200);
            assert!(data.done);
            assert!(data.done_at.is_some());
        },
        _ => panic!("data was expected"),
    }
    assert!(repo.find_by_id("a".to_string()).unwrap().done);
    match mark_as_undone_todo_ctrl(&mut repo, "a".to_string()) {
        Ok(ApiResponseData::Data { data, status, .. }) => {
            assert_eq!(status.as_u16(), 200);
            assert!(!data.done);
            assert!(data.done_at.is_none());
        },
        _ => panic!("data was expected"),
    }
    assert!(!repo.find_by_id("a".to_string()).unwrap().done);
    let missing = mark_as_done_todo_ctrl(&mut repo, "zz".to_string());
    let (status, body) = missing.err().unwrap().respond();
    assert_eq!(status.as_u16(), 422);
    assert_eq!(body.error, "Todo not exists");
    let missing = mark_as_undone_todo_ctrl(&mut repo, "zz".to_string());
    assert_eq!(missing.err().unwrap().respond().0.as_u16(), 422);
}

#[test]
fn api_count_answers_200_with_the_count_of_the_page() {
    let repo = seeded();
    let count = |hx: Option<&str>, referer: Option<&str>| match count_todos_ctrl(&repo, hx, referer)
    {
        Ok(ApiResponseData::Data { data, status, .. }) => {
            assert_eq!(status.as_u16(), 200);
            data
        },
        _ => panic!("data was expected"),
    };
    assert_eq!(count(None, None), 3);
    assert_eq!(count(Some("http://h/?status=done"), None), 1);
    assert_eq!(count(None, Some("http://h/?status=pending")), 2);
    assert_eq!(count(Some("http://h/?status=other"), None), 3);
}

#[test]
fn answers_take_the_failure_of_the_use_case() {
    let failed = respond_with::<Todo>(Err(TodoException::Unknown), HttpStatus::ok());
    assert_eq!(failed.err().unwrap().0, "[500] Unknown error");
    let failed = respond_with::<Todo>(Err(TodoException::AlreadyExists), HttpStatus::created());
    assert_eq!(failed.err().unwrap().respond().0.as_u16(), 409);
    let failed = respond_with_list::<Todo>(Err(TodoException::Unknown));
    assert_eq!(failed.err().unwrap().respond().0.as_u16(), 500);
    let failed = respond_to_deletion(Err(TodoException::Unknown));
    assert_eq!(failed.err().unwrap().respond().0.as_u16(), 500);
    match respond_with(Ok(5i64), HttpStatus::ok()) {
        Ok(ApiResponseData::Data { data, status, informations }) => {
            assert_eq!(data, 5);
            assert_eq!(status.as_u16(), 200);
            assert!(informations.is_none());
        },
        _ => panic!("data was expected"),
    }
}

#[test]
fn a_page_delete_of_an_unknown_todo_changes_nothing() {
    let remove =
        todoapp_server::infra::controller::todos_views_ctrl::delete_todo_ctrl::<TodoInMemoryRepository>;
    let mut repo = seeded();
    let (status, headers, update) = remove(&mut repo, "never".to_string());
    assert_eq!(status.as_u16(), 422);
    assert!(headers.is_empty());
    assert!(update.is_none());
    assert_eq!(repo.count(None).unwrap(), 3);
    let mut empty = TodoInMemoryRepository::empty();
    let (status, headers, update) = remove(&mut empty, "a".to_string());
    assert_eq!(status.as_u16(), 422);
    assert!(headers.is_empty());
    assert!(update.is_none());
}

#[test]
fn a_todo_that_already_exists_answers_409() {
    let failed = respond_with::<Todo>(Err(TodoException::AlreadyExists), HttpStatus::created());
    let (status, body) = failed.err().unwrap().respond();
    assert_eq!(status.as_u16(), 409);
    assert_eq!(body.status, "409 Conflict");
    assert_eq!(body.error, "Todo already exists");
}

#[test]
fn the_front_page_counts_nothing() {
    assert_eq!(render_index_ctrl().num_items, 0);
}

#[test]
fn the_stream_page_shows_all_to_read() {
    let repo = seeded();
    let page = stream_ctrl(&repo).unwrap();
    assert_eq!(page.num_items, 3);
    let names: Vec<&str> = page.todos.iter().map(|v| v.description.as_str()).collect();
    assert_eq!(names, vec!["eggs", "bread", "milk"]);
    assert!(page.todos.iter().all(|v| v.kind == "Read" && v.can == "READ"));
    assert_eq!(page.todos[0].created_at, "2023-01-01 00:02:00");
    assert_eq!(page.todos[0].done_at, "2023-01-01 00:03:00");
    assert_eq!(page.todos[2].created_at, "2023-01-01 00:00:00");
    assert_eq!(page.todos[2].done_at, "");
}

#[test]
fn the_list_takes_the_status_of_the_query_before_that_of_the_page() {
    let repo = seeded();
    let page = list_todos_ctrl(
        &repo,
        SearchTodosQuery { status: Some("done".to_string()) },
        Some("http://h/?status=pending"),
        None,
    )
    .unwrap();
    assert_eq!(page.num_items, 1);
    assert_eq!(page.todos.len(), 1);
    assert_eq!(page.todos[0].description, "eggs");
    assert_eq!(page.todos[0].kind, "Read");
    assert_eq!(page.todos[0].can, "WRITE");

    let page = list_todos_ctrl(
        &repo,
        SearchTodosQuery { status: None },
        None,
        Some("http://h/?status=pending"),
    )
    .unwrap();
    assert_eq!(page.num_items, 2);
    let names: Vec<&str> = page.todos.iter().map(|v| v.description.as_str()).collect();
    assert_eq!(names, vec!["bread", "milk"]);

    let page = list_todos_ctrl(&repo, SearchTodosQuery { status: None }, None, None).unwrap();
    assert_eq!(page.num_items, 3);
    assert_eq!(page.todos.len(), 3);
}

#[test]
fn a_page_create_answers_with_the_view_and_the_count_trigger() {
    let mut repo = TodoInMemoryRepository::empty();
    let (headers, update) = todoapp_server::infra::controller::todos_views_ctrl::create_todo_ctrl(
        &mut repo,
        CreateTodoForm { description: "milk".to_string() },
    )
    .unwrap();
    assert_eq!(headers, vec![header("HX-Trigger-After-Swap", "watch-count-todos")]);
    assert_eq!(update.todo.description, "milk");
    assert_eq!(update.todo.kind, "Create");
    assert_eq!(update.todo.can, "WRITE");
    assert!(!update.todo.done);
    assert_eq!(update.todo.done_at, "");
    let stored = repo.find_by_id(update.todo.id.clone()).unwrap();
    assert_eq!(stored.description, "milk");
}

#[test]
fn a_page_mark_takes_the_todo_off_a_list_it_no_longer_belongs_to() {
    let trigger = header("HX-Trigger-After-Swap", "watch-count-todos");
    let reswap = header("HX-Reswap", "delete");
    let mark = todoapp_server::infra::controller::todos_views_ctrl::mark_as_done_todo_ctrl::<
        TodoInMemoryRepository,
    >;
    let unmark = todoapp_server::infra::controller::todos_views_ctrl::mark_as_undone_todo_ctrl::<
        TodoInMemoryRepository,
    >;

    let mut repo = seeded();
    let (headers, update) =
        mark(&mut repo, "a".to_string(), Some("http://h/?status=pending"), None).unwrap();
    assert_eq!(headers, vec![trigger.clone(), reswap.clone()]);
    assert_eq!(update.todo.kind, "MarkAsDone");
    assert_eq!(update.todo.can, "WRITE");
    assert!(update.todo.done);
    assert_ne!(update.todo.done_at, "");
    assert!(repo.find_by_id("a".to_string()).unwrap().done);

    let (headers, _) = mark(&mut repo, "b".to_string(), Some("http://h/?status=done"), None).unwrap();
    assert_eq!(headers, vec![trigger.clone()]);
    let (headers, _) = mark(&mut repo, "b".to_string(), None, None).unwrap();
    assert_eq!(headers, vec![trigger.clone()]);

    let (headers, update) =
        unmark(&mut repo, "a".to_string(), None, Some("http://h/?status=done")).unwrap();
    assert_eq!(headers, vec![trigger.clone(), reswap.clone()]);
    assert_eq!(update.todo.kind, "MarkAsUndone");
    assert!(!update.todo.done);
    assert_eq!(update.todo.done_at, "");
    assert!(!repo.find_by_id("a".to_string()).unwrap().done);

    let (headers, _) =
        unmark(&mut repo, "b".to_string(), Some("http://h/?status=pending"), None).unwrap();
    assert_eq!(headers, vec![trigger.clone()]);

    assert_eq!(
        mark(&mut repo, "zz".to_string(), None, None).err(),
        Some(TodoException::NotFound)
    );
    assert_eq!(
        unmark(&mut repo, "zz".to_string(), None, None).err(),
        Some(TodoException::NotFound)
    );
}

#[test]
fn a_page_delete_answers_200_or_422() {
    let remove =
        todoapp_server::infra::controller::todos_views_ctrl::delete_todo_ctrl::<TodoInMemoryRepository>;
    let mut repo = seeded();
    let (status, headers, update) = remove(&mut repo, "c".to_string());
    assert_eq!(status.as_u16(), 200);
    assert_eq!(
        headers,
        vec![header("HX-Trigger-After-Swap", "watch-count-todos"), header("HX-Reswap", "delete")]
    );
    let update = update.unwrap();
    assert_eq!(update.todo.id, "c");
    assert_eq!(update.todo.description, "eggs");
    assert_eq!(update.todo.kind, "Delete");
    assert_eq!(update.todo.can, "WRITE");
    assert!(update.todo.done);
    assert_eq!(repo.count(None).unwrap(), 2);

    let (status, headers, update) = remove(&mut repo, "c".to_string());
    assert_eq!(status.as_u16(), 422);
    assert!(headers.is_empty());
    assert!(update.is_none());
    assert_eq!(repo.count(None).unwrap(), 2);
}

#[test]
fn a_page_count_counts_what_the_page_shows() {
    let count =
        todoapp_server::infra::controller::todos_views_ctrl::count_todos_ctrl::<TodoInMemoryRepository>;
    let repo = seeded();
    assert_eq!(count(&repo, None, None), 3);
    assert_eq!(count(&repo, Some("http://h/?status=done"), None), 1);
    assert_eq!(count(&repo, None, Some("http://h/?status=pending")), 2);
    assert_eq!(count(&repo, Some("nonsense"), Some("http://h/?status=pending")), 3);
}

#[test]
fn an_open_page_is_sent_the_update_to_read() {
    let mut repo = TodoInMemoryRepository::empty();
    let (_, update) = todoapp_server::infra::controller::todos_views_ctrl::create_todo_ctrl(
        &mut repo,
        CreateTodoForm { description: "milk".to_string() },
    )
    .unwrap();
    let made = update.clone();
    let (name, sent) = todos_stream(update);
    assert_eq!(name, "update_todo_view");
    assert_eq!(name, UPDATE_EVENT);
    assert_eq!(sent.todo.can, "READ");
    assert_eq!(made.todo.can, "WRITE");
    assert_eq!(sent.todo.id, made.todo.id);
    assert_eq!(sent.todo.description, made.todo.description);
    assert_eq!(sent.todo.kind, "Create");
    assert_eq!(sent.todo.created_at, made.todo.created_at);
}

#[test]
fn views_are_made_in_the_order_of_the_todos() {
    let todos = vec![todo("a", "milk", 0), todo("b", "bread", 60)];
    let views = todo_views(&todos, TodoOperation::Update, TodoCan::Write);
    assert_eq!(views.len(), 2);
    assert_eq!(views[0].id, "a");
    assert_eq!(views[1].id, "b");
    assert_eq!(views[1].created_at, "1970-01-01 00:01:00");
    assert!(views.iter().all(|v| v.kind == "Update" && v.can == "WRITE"));
    assert!(todo_views(&Vec::new(), TodoOperation::Read, TodoCan::Read).is_empty());
    assert_eq!(make_change_headers(false).len(), 1);
    assert_eq!(make_change_headers(true).len(), 2);
    let _unused: Option<UpdateTodoTmpl> = None;
}

#[test]
fn the_steps_of_the_page_answers() {
    let trigger = header("HX-Trigger-After-Swap", "watch-count-todos");
    let reswap = header("HX-Reswap", "delete");
    let (headers, update) = created_answer(todo("a", "milk", 0));
    assert_eq!(headers, vec![trigger.clone()]);
    assert_eq!((update.todo.kind.as_str(), update.todo.can.as_str()), ("Create", "WRITE"));

    let (headers, update) = marked_answer(todo("a", "milk", 0), true, Some("pending".to_string()));
    assert_eq!(headers, vec![trigger.clone(), reswap.clone()]);
    assert_eq!(update.todo.kind, "MarkAsDone");
    let (headers, _) = marked_answer(todo("a", "milk", 0), true, Some("done".to_string()));
    assert_eq!(headers, vec![trigger.clone()]);
    let (headers, update) = marked_answer(todo("a", "milk", 0), false, Some("done".to_string()));
    assert_eq!(headers, vec![trigger.clone(), reswap.clone()]);
    assert_eq!(update.todo.kind, "MarkAsUndone");
    let (headers, _) = marked_answer(todo("a", "milk", 0), false, Some("pending".to_string()));
    assert_eq!(headers, vec![trigger.clone()]);
    let (headers, _) = marked_answer(todo("a", "milk", 0), false, None);
    assert_eq!(headers, vec![trigger.clone()]);

    let (status, headers, update) = removal_answer(Removal::Missing);
    assert_eq!((status.as_u16(), headers.len(), update.is_none()), (422, 0, true));
    let (status, headers, update) = removal_answer(Removal::Failed);
    assert_eq!((status.as_u16(), headers.len(), update.is_none()), (500, 0, true));
    let (status, headers, update) = removal_answer(Removal::Deleted(todo("a", "milk", 0)));
    assert_eq!(status.as_u16(), 200);
    assert_eq!(headers, vec![trigger, reswap]);
    assert_eq!(update.unwrap().todo.kind, "Delete");

    assert_eq!(
        list_status_word(Some("done".to_string()), Some("pending".to_string())),
        Some("done".to_string())
    );
    assert_eq!(list_status_word(None, Some("pending".to_string())), Some("pending".to_string()));
    assert_eq!(list_status_word(None, None), None);

    let todos = vec![todo("a", "milk", 0)];
    let page = stream_page(&todos, 7);
    assert_eq!((page.num_items, page.todos.len()), (7, 1));
    assert_eq!(page.todos[0].can, "READ");
    let page = list_page(&todos, 9);
    assert_eq!((page.num_items, page.todos.len()), (9, 1));
    assert_eq!(page.todos[0].can, "WRITE");
}

#[test]
fn asset_names_lose_their_slashes_and_their_directory() {
    assert_eq!(asset_path("/assets/app.css"), "app.css");
    assert_eq!(asset_path("assets/app.css"), "app.css");
    assert_eq!(asset_path("///assets/js/app.js"), "js/app.js");
    assert_eq!(asset_path("/assets/assets/app.css"), "app.css");
    assert_eq!(asset_path("/assets/x/assets/y"), "x/y");
    assert_eq!(asset_path("/other/assets/app.css"), "other/assets/app.css");
    assert_eq!(asset_path("/favicon.ico"), "favicon.ico");
    assert_eq!(asset_path("/assets"), "assets");
    assert_eq!(asset_path("/assets/"), "");
    assert_eq!(asset_path("/"), "");
    assert_eq!(asset_path(""), "");
    assert_eq!(asset_path("/assets/asassets/sets/"), "assets/");
    assert_eq!(asset_path("/assets/é/assets/ü.css"), "é/ü.css");
    for path in ["/assets/a/assets/b", "//x", "assets/assets/", "/assets/asassets/sets/", "/a/b"] {
        let mut expected = path.trim_start_matches('/').to_string();
        if expected.starts_with("assets/") {
            expected = expected.replace("assets/", "");
        }
        assert_eq!(asset_path(path), expected);
        assert_eq!(static_handler(path).0, expected);
    }
}

#[test]
fn a_static_file_goes_out_under_its_guessed_type() {
    let found = StaticFile("app.css".to_string()).respond(Some(vec![1, 2, 3]));
    match found {
        StaticResponse::Found { content_type, data } => {
            assert_eq!(content_type, "text/css");
            assert_eq!(data, vec![1, 2, 3]);
        },
        StaticResponse::NotFound => panic!("the file was expected"),
    }
    match StaticFile("js/app.js".to_string()).respond(Some(Vec::new())) {
        StaticResponse::Found { content_type, .. } => {
            assert_eq!(
                content_type,
                mime_guess::from_path("js/app.js").first_or_octet_stream().as_ref()
            );
        },
        StaticResponse::NotFound => panic!("the file was expected"),
    }
    match StaticFile("noextension".to_string()).respond(Some(Vec::new())) {
        StaticResponse::Found { content_type, .. } => {
            assert_eq!(content_type, "application/octet-stream")
        },
        StaticResponse::NotFound => panic!("the file was expected"),
    }
    assert!(matches!(
        StaticFile("app.css".to_string()).respond(None),
        StaticResponse::NotFound
    ));
}

#[test]
fn health_answers_200() {
    let (status, report) = health();
    assert_eq!(status.as_u16(), 200);
    assert_eq!(report.status, "OK");
    assert_eq!(report.version, "1.0.0");
    assert_eq!(report.uptime, 0);
}

#[test]
fn no_route_answers_404() {
    let (status, body) = not_found_ctrl();
    assert_eq!(status.as_u16(), 404);
    assert_eq!(body.message, "Not Found");
}

#[test]
fn hello_greets_the_name_or_the_world() {
    assert_eq!(render_hello_ctrl(HelloQuery { name: Some("Ada".to_string()) }).name, "Ada");
    assert_eq!(render_hello_ctrl(HelloQuery { name: None }).name, "World");
    assert_eq!(render_hello_ctrl(HelloQuery { name: Some(String::new()) }).name, "");
}

#[test]
fn say_hello_holds_a_word() {
    let words: std::collections::BTreeSet<String> = (0..50).map(|_| say_hello().text).collect();
    assert!(words.iter().all(|w| !w.is_empty()));
    assert!(words.len() > 1);
}

#[test]
fn settings_are_on_when_they_are_one() {
    let one = "1".to_string();
    let zero = "0".to_string();
    let word = "true".to_string();
    let padded = " 1".to_string();
    assert!(is_switched_on(Some(&one)));
    assert!(!is_switched_on(Some(&zero)));
    assert!(!is_switched_on(Some(&word)));
    assert!(!is_switched_on(Some(&padded)));
    assert!(!is_switched_on(None));
    assert_eq!(BROADCAST_CAPACITY, 10);
}
