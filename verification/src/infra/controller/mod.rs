pub mod catchers_ctrl;
pub mod common_ctrl;
pub mod common_views_ctrl;
pub mod helper;
pub mod todo_ctrl;
pub mod todos_views_ctrl;
