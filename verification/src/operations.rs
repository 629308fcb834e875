//! The operations on repositories, mirrors and clones: what each decides
//! from the registry, the metadata and what was found on disk.

pub mod add;
pub mod alias;
pub mod batch;
pub mod clone_op;
pub mod credentials;
pub mod destroy;
pub mod gc;
pub mod init;
pub mod list;
pub mod open;
pub mod progress;
pub mod remove;
pub mod status;
pub mod sync;
pub mod tags;
pub mod update;

pub use add::{add_repo, detect_current_repo_urls};
pub use alias::{add_alias, list_aliases, remove_alias};
pub use clone_op::{clone_from_pristine, list_clones};
pub use credentials::setup_credentials;
pub use destroy::{
    destroy_all_clones, destroy_all_pristines, destroy_clone, destroy_pristine,
    destroy_stale_clones, destroy_target,
};
pub use gc::{find_stale_clones, run_gc, GcReport, StaleClone};
pub use init::{get_uninitialized_repos, init_all_pristines, init_pristine};
pub use list::{format_repo_status, format_summary, list_all_repos, truncate_string, RepoStatus};
pub use open::find_path;
pub use remove::remove_repo;
pub use status::{get_detailed_status, CloneStatus, DetailedStatus};
pub use sync::{get_syncable_repos, sync_all_pristines, sync_pristine, update_latest_tag};
pub use tags::check_for_new_tag;
pub use update::{get_updatable_repos, update_repo};
