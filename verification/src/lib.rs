//! Release automation helpers: version-file formats, git error triage,
//! bot-token exchange decisions, run summaries and telemetry settings.

pub mod text;
pub mod bot_token;
pub mod git;
pub mod monorepo;
pub mod telemetry;
pub mod cli;
pub mod release;
pub mod formats;
