//! Git interaction: classifying push failures and pacing retries.

pub mod retry;
