//! Verified core of a study-note generator that talks to local and cloud LLM providers.
pub mod text;
pub mod provider;
pub mod json;
pub mod body;
pub mod note;
pub mod config;
pub mod prompt;
pub mod topic;
pub mod retry;
pub mod issue;
pub mod notes_dir;
