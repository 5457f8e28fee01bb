//! The two stores, the shape of the answers to HTTP requests, and what the
//! handlers decide.

pub mod api_response;
pub mod chance;
pub mod controller;
pub mod repository;
pub mod server;
