//! Core of a commit-report desktop tool: the event model and routing table,
//! the diff-colorizing line classifier, the commit log with its filter, and
//! the small reactive stores for the output path, the repository and the
//! configuration.  Widget toolkits, repository access and file writing are
//! collaborators outside this crate; the logic here is verified.
#![allow(non_snake_case)]

pub mod choose_folder_button;
pub mod commit_diff;
pub mod commit_log;
pub mod commit_log_column;
pub mod commit_log_model;
pub mod commit_log_model_filter;
pub mod commit_log_view;
pub mod config_path;
pub mod config_store;
pub mod date_time;
pub mod diff_colorizer;
pub mod diff_formatter;
pub mod dispatcher;
pub mod event;
pub mod line_number;
pub mod options_dialog;
pub mod output_path_store;
pub mod report_generator;
pub mod repository_store;
pub mod source;
pub mod strings;
