//! Decisions and text of a local binary manager for crates.io packages.
pub mod app;
pub mod batch;
pub mod decimal;
pub mod job;
pub mod ops;
pub mod stage;
pub mod state;
pub mod text;
pub mod ui;
pub mod validate;
pub mod version;
