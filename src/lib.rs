//! Keeps dotfiles mirrored between a home directory and a git checkout.
//!
//! The library holds the settings model, the derived paths and remote URL,
//! the readiness and link checks, and the reconciliation protocol as a state
//! machine. The program around it performs the git, filesystem and settings
//! I/O that each step asks for.
mod app;
mod config;
mod error;
mod link;
mod repo;

pub use app::{
    Action, App, COMMIT_MESSAGE, Event, Goal, Phase, RunModel, SyncRun, Warning, clean_without_repository,
    finish, git_answer, home_file_of, initial_run, io_answer, is_link_phase, links_from,
    materialized_link_is_correct, moved, next, phase_fits, phases_stay_with_goal, repo_file_of,
    succeeded_with_empty, sync_success_leaves_tree_clean, unexpected, unsynced_without_repository,
};
pub use config::{Config, ConfigManager, ConfigModel, config_dir_of, config_file_of, default_repo_path_of};
pub use error::SyncError;
pub use link::{LinkState, link_state, link_state_of, target_view};
pub use repo::{RepoProbe, is_line_space, readiness, readiness_of, remote_url, remote_url_of, trim_end_of, upstream_ref};
