//! Batch automation of a fixed sequence of source-control operations —
//! clone, patch, branch, commit, push, open pull request — across a list of
//! repositories. The heart of the library is a resumable pipeline: a
//! persisted batch state records, per repository, how far it progressed, and
//! a re-invocation continues from there instead of repeating work.
//!
//! The library holds the verified core: the lifecycle data model, the
//! per-stage transition functions, the dispatch and partial-failure policy of
//! the pipeline driver, the repository-list and git-config parsers, and the
//! codec that turns a batch state into a JSON document and back. The actual
//! git, process and network operations are collaborators: a caller performs
//! them and hands their outcomes to the pipeline functions here.

pub mod creds;
pub mod data;
pub mod gitconfig;
pub mod github;
pub mod json;
pub mod laws;
pub mod list;
pub mod patcher;
pub mod pipeline;
pub mod strutil;
