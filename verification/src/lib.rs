//! Shell-command synthesis for a small archive helper.
//!
//! Given a user-supplied path (optionally ending in a wildcard segment) the
//! library resolves it into [`file_metadata::FileMetadata`] and builds the
//! exact command line for each supported operation: extract, zip (optionally
//! password protected), tar, append to an existing archive, and bulk
//! extraction of every recognized archive in a directory.

pub mod arg_parser;
pub mod command_builder;
pub mod error;
pub mod file_metadata;
pub mod string_utils;
