//! The decisions of a language server that lints the files of a workspace.
//!
//! [`backend::Backend`] holds the workspaces that a client has open, and [`worker::BackendWorker`]
//! the state of one of them. Their methods take plain values: what a client sent, what stands on
//! the disk, what the linter found. They change the state and say what is to be done next: what to
//! read, to lint or to publish. The contracts are stated over the views of these two types, and
//! [`laws`] holds what follows of them for any course of events.

pub mod backend;
pub mod code_actions;
pub mod commands;
pub mod config;
pub mod diagnostics;
pub mod globs;
pub mod ignore_files;
pub mod ignore_rules;
pub mod laws;
pub mod linter;
pub mod nested_configs;
pub mod options;
pub mod paths;
pub mod position;
pub mod text;
pub mod watched_files;
pub mod worker;
