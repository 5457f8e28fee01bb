//! The todo, what can go wrong with it, and what a store of todos owes.

pub mod entity;
pub mod exception;
pub mod repository;
