//! The rules for single repositories: their state, their remotes, the
//! credentials offered to them and what is shown of them.
pub mod credentials;
pub mod detail;
pub mod operations;
pub mod remote_url;
pub mod ssh_config;
pub mod status;
