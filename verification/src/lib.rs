//! Verified decision logic of the blog's administration console: upload
//! queueing, log streaming, trash retention, note drafts, settings forms and
//! the list pages' selection bookkeeping.

pub mod text;
pub mod upload;
pub mod logs;
pub mod listing;
pub mod notes;
pub mod trash;
pub mod settings;
pub mod assets;
pub mod dates;
pub mod profile;
pub mod picker;
pub mod comments;
pub mod dashboard;
pub mod friends;
pub mod mcp;
pub mod posts;
pub mod runner;
pub mod sections;
pub mod about;
