//! What a release run reports.

pub mod summary;
