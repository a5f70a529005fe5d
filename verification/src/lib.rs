//! Upload orchestration for NFT collections: token identifiers and metadata
//! records derived from image file names, the retry policy around an upload,
//! the passes of a batch run, and the record a run leaves behind.

pub mod text;
pub mod metadata;
pub mod retry;
pub mod config;
pub mod folder;
pub mod workflow;
pub mod record;
pub mod stamp;
