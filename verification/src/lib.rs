//! Project, todo and secret management for the `rush` command line tool.
//!
//! The verified core of the tool: how todos, projects and commands are
//! represented, named, compared, saved and turned back into command lines,
//! and how stored secrets are encoded and decoded.

pub mod auth;
pub mod cli;
pub mod config;
pub mod database;
pub mod editor;
pub mod exceptions;
pub mod fonts;
pub mod logger;
pub mod models;
pub mod paths;
pub mod projects_ui;
pub mod server;
pub mod shims;
pub mod text;
pub mod todos;
pub mod ui;
