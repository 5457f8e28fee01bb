pub mod todo_inmemory_repo;
pub mod todo_pg_repo;
