use vstd::prelude::*;

pub mod paths;
pub mod watcher;
pub mod filter;
pub mod repo;
pub mod message;
pub mod config;
pub mod app;
