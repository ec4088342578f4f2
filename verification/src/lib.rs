//! Gitea web hook events, and the commands that answer them.
pub mod cli_handler;
pub mod command;
pub mod gitea;
pub mod json;
pub mod luffy_gitea;
pub mod push_handler;
pub mod server_config;
pub mod text;
