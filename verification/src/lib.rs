//! Verified core of a tool that backs up every repository of a GitHub
//! organisation: configuration checks, page planning for the GitHub API,
//! clone batching, progress rendering and the interactive search menu.

pub mod text;
pub mod models;
pub mod errors;
pub mod batch;
pub mod fetch;
pub mod download;
pub mod ui;
pub mod env;
pub mod config;
pub mod app;
pub mod menu;
pub mod scan;
pub mod domain;
