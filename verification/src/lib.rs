use vstd::prelude::*;

pub mod text;
pub mod error;
pub mod active_map;
pub mod download_manager;
pub mod paths;
pub mod downloader;
pub mod mod_download;
pub mod batch;
pub mod profiles;
pub mod order;
pub mod logs;
pub mod crash_dumps;
pub mod settings;
pub mod ingest;
pub mod commands;
pub mod laws;
