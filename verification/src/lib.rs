//! Verified core of the OQTOPUS command-line interface.

pub mod chars;
pub mod lines;
pub mod metadata;
pub mod metadata_laws;
pub mod args;
pub mod numbers;
pub mod lifecycle;
pub mod completion;
pub mod fields;
pub mod versions;
pub mod paths;
pub mod service;
pub mod environment;
pub mod operations;
pub mod backend;
pub mod version;
pub mod init;
pub mod cloud_local;
pub mod manager;
pub mod text;
pub mod cli;
pub mod fake_tool;
pub mod config;
pub mod operation_run;
