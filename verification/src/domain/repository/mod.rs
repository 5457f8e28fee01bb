pub mod todo_repository;
