//! One-directional mirroring of a single file-tree entry: the decisions that
//! say whether a destination entry is created, replaced, overwritten or left
//! alone, stated and proved over plain values. The caller performs the
//! filesystem work that the decisions ask for and reports back what happened.

pub mod entry;
pub mod error;
pub mod staleness;
pub mod link;
pub mod progress;
pub mod engine;
pub mod laws;

pub use entry::{Entry, LinkState, Metadata};
pub use error::{to_io_error, SyncError};
pub use staleness::more_recent_than;
pub use link::{reconcile_link, LinkPlan};
pub use progress::{progress_percent, CHUNK_SIZE};
pub use engine::{copy_entry, sync_entries, Action, EntrySync, Event, Phase, SyncOptions};


