//! Multi-repository Git management: the rules behind the `gitatlas` command
//! line and terminal interface, stated as contracts and proved.
pub mod cache;
pub mod cli;
pub mod error;
pub mod git;
pub mod handlers;
pub mod laws;
pub mod models;
pub mod order;
pub mod output;
pub mod paths;
pub mod report;
pub mod resolver;
pub mod scanner;
pub mod style;
pub mod text;
pub mod tui;
