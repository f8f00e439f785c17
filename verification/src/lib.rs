pub mod report;
pub mod task;
pub mod task_state;
pub mod text;
