//! Session and protocol core of a language server: interned file identities,
//! a virtual file system with an edge-triggered change log, line-ending
//! normalisation, the open-document store, session state with request
//! correlation, and the message dispatcher.
pub mod anchored_path;
pub mod config;
pub mod dispatcher;
pub mod file_id;
pub mod from_proto;
pub mod global_state;
pub mod handlers;
pub mod line_endings;
pub mod lsp;
pub mod mem_docs;
pub mod path_interner;
pub mod path_text;
pub mod text;
pub mod vfs;
pub mod vfs_path;
