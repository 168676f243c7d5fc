//! Verified core of a few Mononoke support pieces: SQL connection planning,
//! a tick-driven test blobstore, and segmented-changelog scuba samples.

pub mod changelog_logging;
pub mod sql_ext;
pub mod tick_blobstore;
