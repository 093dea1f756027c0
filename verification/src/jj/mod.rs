//! What the client knows of the repository: the records it caches, the text
//! formats of the command-line queries, and the transactions that change
//! the working copy.

pub mod log;
pub mod native_operations;
pub mod operations;
pub mod repo;
pub mod status;
