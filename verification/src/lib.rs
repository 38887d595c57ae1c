//! Decisions of a small desktop shell, stated and proved.
//!
//! The shell shows either a first-run `setup` window or the `main` window,
//! depending on a flag that the settings document keeps, reports the
//! machine's memory in whole gigabytes, and lists the schema migrations of
//! its databases. Everything here is a function of plain values: the host
//! around it reads the settings, talks to the windowing system and runs the
//! migrations.

pub mod commands;
pub mod error;
pub mod migrations;
pub mod registry;
pub mod settings;
pub mod window_config;
pub mod window_name;
