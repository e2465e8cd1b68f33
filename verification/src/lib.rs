//! `serve_here`: serving a local directory over HTTP, with a directory browser and a live
//! statistics dashboard.
//!
//! The modules hold the decisions of the server, each with its contract: how a request for
//! a path is served (`serve`), the directory listing page (`listing`), the statistics of the
//! requests (`metrics`) and their dashboard (`stats`), background servers (`daemon`), and the
//! text formats these use (`text`, `encoding`, `format`).

pub mod text;
pub mod encoding;
pub mod error;
pub mod format;
pub mod listing;
pub mod serve;
pub mod metrics;
pub mod daemon;
pub mod stats;
pub mod server;
pub mod cli;
pub mod network;
pub mod templates;
