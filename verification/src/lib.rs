//! The snapshot layer of a sandbox service.
//!
//! A snapshot is the captured state of a sandbox: its disks as chains of layers, and its memory
//! where it can be resumed. This crate holds what is decided and computed about snapshots:
//!
//! - [`manifest`], [`persisted`], [`drive`] and [`manifest_laws`]: what a snapshot consists of on
//!   disk;
//! - [`image`], [`squash`], [`staging`], [`squash_laws`] and [`squash_history`]: merging its chains
//!   into single layers;
//! - [`cold_start`], [`startup_run`], [`startup_laws`] and [`startup_history`]: starting its services
//!   after a cold boot;
//! - [`record`], [`info`], [`page`], [`api`] and [`api_laws`]: what the API tells of it;
//! - [`cli`]: what the command line tells of it;
//! - [`text`], [`path`] and [`time`]: what these are built on.
//!
//! Work outside the process is done by the caller. [`squash::SquashRun`] and
//! [`startup_run::StartupRun`] say what is to be done next and take what came of it.

pub mod api;
pub mod api_laws;
pub mod cli;
pub mod cold_start;
pub mod drive;
pub mod image;
pub mod info;
pub mod manifest;
pub mod manifest_laws;
pub mod page;
pub mod path;
pub mod persisted;
pub mod record;
pub mod squash;
pub mod squash_history;
pub mod squash_laws;
pub mod staging;
pub mod startup_history;
pub mod startup_laws;
pub mod startup_run;
pub mod text;
pub mod time;
