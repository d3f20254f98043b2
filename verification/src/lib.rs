//! A verified core for a filesystem-change logger: raw directory-watch
//! notifications are normalized into canonical event records, accumulated
//! into bounded batches, and committed transactionally to an embedded
//! SQLite store.

pub mod accumulator;
pub mod normalize;
pub mod record;
pub mod store;
