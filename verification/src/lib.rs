//! Version lifecycle engine and shim-resolution layer for a JavaScript
//! toolchain version manager: it decides which installed version of a
//! backend tool should run, drives install / uninstall / set-default
//! transitions over the runtime directory, gates installs on checksum
//! verification, and translates one canonical command vocabulary into the
//! argument conventions of each backend tool.

pub mod bump;
pub mod config;
pub mod dist;
pub mod download;
pub mod error;
pub mod health;
pub mod lifecycle;
pub mod manifest;
pub mod resolve;
pub mod store;
pub mod strings;
pub mod translate;
pub mod version;
pub mod yarn;
