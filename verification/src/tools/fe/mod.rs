pub mod jmap;
pub mod jstack;
pub mod list;
pub mod profiler;
pub mod routine_load;
pub mod table_info;
