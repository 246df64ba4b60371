use vstd::prelude::*;
use crate::entry::{Entry, Metadata};
use crate::error::SyncError;

verus! {

/// The source is newer than the destination: always when the destination
/// is missing, else when its modification time is strictly later.
pub open spec fn is_more_recent(src: Metadata, dest: Option<Metadata>) -> bool {
    match dest {
        None => true,
        Some(d) => src.mtime() > d.mtime(),
    }
}

/// What the staleness comparison of two entries yields.
pub open spec fn staleness(src: Entry, dest: Entry) -> Result<bool, SyncError> {
    if dest.metadata is None {
        Ok(true)
    } else {
        match src.metadata {
            None => Err(SyncError::MetadataUnavailable { path: src.path }),
            Some(s) => Ok(is_more_recent(s, dest.metadata)),
        }
    }
}

/// The modification time of `m` in nanoseconds, computed exactly.
fn mtime_nanos(m: &Metadata) -> (r: i128)
    ensures
        r == m.mtime(),
{
    (m.mtime_seconds as i128) * 1_000_000_000i128 + (m.mtime_nanos as i128)
}

/// Whether `src` must be copied over `dest`: a missing destination always
/// is stale, else the source must have a strictly later modification time.
pub fn more_recent_than(src: &Entry, dest: &Entry) -> (r: Result<bool, SyncError>)
    ensures
        r == staleness(*src, *dest),
{
    match &dest.metadata {
        None => Ok(true),
        Some(d) => match &src.metadata {
            None => Err(SyncError::MetadataUnavailable { path: src.path.clone() }),
            Some(s) => Ok(mtime_nanos(s) > mtime_nanos(d)),
        },
    }
}

} // verus!
