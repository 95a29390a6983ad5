//! Core logic of the Douyin desktop downloader: selection tracking, resolver
//! contract validation, task state vocabulary, download planning decisions,
//! configuration handling and small parsers, each with a verified contract.

pub mod text;
pub mod download;
pub mod config;
pub mod models;
pub mod error;
pub mod query_builder;
pub mod events;
pub mod firefox_cookie;
pub mod user_files;
pub mod event_payload;
pub mod queries;
pub mod migration_plan;
pub mod live_status;
pub mod path_guard;
