//! The local store of a whiteboard application: workspaces, boards, and the
//! rules that names, identifiers and stored boards obey.
pub mod domain;
pub mod error;
pub mod index;
pub mod laws;
pub mod persistence;
pub mod recency;
pub mod rules;
pub mod text;
pub mod validation;
