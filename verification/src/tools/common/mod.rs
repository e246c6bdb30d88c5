pub mod format_utils;
pub mod fs_utils;
pub mod host_selection;
