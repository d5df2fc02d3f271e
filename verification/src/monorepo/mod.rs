//! Monorepo release runs.

pub mod run;
