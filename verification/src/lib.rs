//! Core logic of a keyboard-driven workspace manager for a tree of text
//! documents: buffer/session bookkeeping, the focus/mode interaction state
//! machine, directory-listing order, content scanners (tags, tasks,
//! backlinks, wiki links), and the fuzzy-filter adapter.
//!
//! Everything here is verified; terminal rendering and file-system access
//! live outside and talk to this crate through plain values.

pub mod config;
pub mod edit;
pub mod entry;
pub mod filter;
pub mod flows;
pub mod git;
pub mod keys;
pub mod ops;
pub mod paths;
pub mod router;
pub mod scan;
pub mod session;
pub mod spellcheck;
pub mod state;
pub mod templates;
pub mod text;
pub mod theme;
pub mod wiki;
