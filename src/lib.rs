//! Offloads a cargo invocation to a remote build server: resolves the
//! configuration, derives the remote working directory, renders the remote
//! command and sequences the transfer, build and copy-back stages.
pub mod text;
pub mod build_path;
pub mod config;
pub mod command;
pub mod pipeline;
pub mod stages;
