//! Launch a single-instance desktop application under one of several
//! configuration profiles, switching the shared configuration file between
//! per-profile snapshots.
pub mod config;
pub mod store;
pub mod switch;
pub mod menu;
