//! One use case for each thing a client can ask of the todos.

pub mod clear_all_completed_todos_usecase;
pub mod count_todos_usecase;
pub mod create_todo_usecase;
pub mod delete_todo_usecase;
pub mod get_all_todos_usecase;
pub mod health_usecase;
pub mod mark_as_done_todo_usecase;
pub mod status_filter;
