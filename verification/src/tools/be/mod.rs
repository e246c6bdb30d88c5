pub mod be_http_client;
pub mod be_vars;
pub mod list;
pub mod memz;
pub mod pipeline_tasks;
pub mod pstack;
pub mod response_handler;
