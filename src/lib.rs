pub mod feeds;
pub mod fetch;
pub mod cache;
pub mod config;
pub mod reader;
pub mod state;
