//! An ingestion-and-cursor pipeline: candidate items are fetched from a
//! paginated remote source, filtered against a persisted watermark cursor,
//! forwarded one by one to a messaging channel with per-item failure
//! isolation, and the cursor is advanced monotonically exactly once per run.
//!
//! The pipeline's decisions live here, verified; the surrounding I/O
//! (HTTP fetch, channel send, cursor storage) is driven by a host that
//! performs each [`run::Action`] and reports its outcome back.

pub mod caption;
pub mod filter;
pub mod item;
pub mod link;
pub mod query;
pub mod run;
