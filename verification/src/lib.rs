//! Verified core of a desktop-shell backend: the pure logic of a set of
//! host-facing request handlers (command lookup and execution, home and
//! iCloud-Drive path resolution, idempotent file and symlink creation).
//!
//! The handlers themselves are thin wrappers around operating-system calls;
//! everything they compute or decide — whitespace trimming of command output,
//! parent-directory extraction, path joining, the augmented search path for
//! subprocesses, and the translation of each call's outcome into the result
//! the frontend sees — lives here, with contracts.

mod commands;
mod files;
mod home;
mod paths;
mod text;

pub use commands::augmented_path;
pub use commands::check_command_result;
pub use commands::run_command_result;
pub use files::create_symlink_plan;
pub use files::write_if_missing_plan;
pub use files::LinkAction;
pub use files::WriteAction;
pub use home::get_home_dir;
pub use home::get_icloud_candidate;
pub use home::home_dir_result;
pub use home::icloud_candidate;
pub use home::icloud_result;
pub use paths::has_sep;
pub use paths::join_path;
pub use paths::join_spec;
pub use paths::lemma_parent_of_join;
pub use paths::parent_dir;
pub use paths::parent_spec;
pub use text::is_ws;
pub use text::lemma_trim_idempotent;
pub use text::trim_spec;
pub use text::trim_ws;
