//! Storage layer of a markdown slide editor: workspace path resolution,
//! validated file-system mutations, pasted-asset colocation, the settings
//! record and the font list.
//!
//! File-system work is split in two: the functions here decide, from what the
//! caller observed on disk, which single operation to perform (or which error
//! to report); the embedding application performs it.
pub mod paths;
pub mod workspace;
pub mod assets;
pub mod config;
pub mod fonts;
