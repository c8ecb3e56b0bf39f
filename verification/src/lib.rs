//! A read-only virtual filesystem over a `vach` archive.
//!
//! A `vach` archive stores a flat table of named byte entries; an asset host
//! expects a hierarchical filesystem. The [`VachAssetIo`] adapter bridges the
//! two: it answers byte retrieval by exact key lookup, synthesizes directories
//! by prefix matching over the entry keys, and maps archive-level failures
//! into a small host-facing error taxonomy.

mod adapter;
mod archive;
mod error;

pub use adapter::filter_by_prefix;
pub use adapter::is_dir_path;
pub use adapter::key_matches;
pub use adapter::lemma_classification_exclusive;
pub use adapter::lemma_clones_agree;
pub use adapter::lemma_empty_prefix_selects_all;
pub use adapter::VachAssetIo;
pub use archive::archive_contents;
pub use archive::entry_views;
pub use archive::fetchable;
pub use archive::parsed_archive;
pub use archive::ArchiveSource;
pub use error::FileType;
pub use error::Metadata;
pub use error::VfsError;
