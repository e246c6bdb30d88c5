pub mod app_state;
pub mod background_tasks;
