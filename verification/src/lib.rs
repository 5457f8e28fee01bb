//! A todo list service: the record, the repository contract with its
//! in-memory backend, the statements and error mapping of the relational
//! backend, the use cases, and the shaping of HTTP responses and views.

pub mod domain;
pub mod infra;
pub mod usecase;
