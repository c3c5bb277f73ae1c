//! Live-verification probes for a multi-database SQL editor.
pub mod connection;
pub mod course;
pub mod export_dialog;
pub mod grid;
pub mod grid_save;
pub mod grid_shortcut_leak;
pub mod grid_sql_export;
pub mod grid_sql_export_live;
pub mod ime;
pub mod import;
pub mod import_data;
pub mod import_dialog;
pub mod import_live;
pub mod import_verdict;
pub mod import_words;
pub mod laws;
pub mod machine;
pub mod markdown;
pub mod object_browser_tabs;
pub mod object_export_live;
pub mod op;
pub mod proc_exec;
pub mod progress;
pub mod read_only;
pub mod report;
pub mod result_export;
pub mod routine;
pub mod screen;
pub mod screen_verdict;
pub mod seen;
pub mod session_leak;
pub mod template;
pub mod text;
pub mod transaction_mode;
pub mod verdict;
