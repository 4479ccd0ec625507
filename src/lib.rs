//! Scheduled database backups: the backup catalog and its incremental
//! chains, retention, the per-service run guard, and the planning of dump
//! and physical backup runs.

pub mod catalog;
pub mod chain;
pub mod config;
pub mod credentials;
pub mod dump;
pub mod incremental;
pub mod mysql_config;
pub mod retention;
pub mod schedule;
pub mod service;
pub mod text;
