pub mod health;
pub mod timestamp;
pub mod todo;
