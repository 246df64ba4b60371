use vstd::prelude::*;

verus! {

/// Why one entry could not be synchronized.
#[derive(Debug, PartialEq, Eq)]
pub enum SyncError {
    /// A path that had to exist could not be inspected.
    MetadataUnavailable { path: String },
    /// The destination exists and is not a link, so it is not replaced by one.
    RefusedOverwrite { path: String },
    /// A read, write, create or remove failed on the path.
    Io { path: String, message: String },
    /// A read of the source returned `len` bytes, more than one chunk.
    OversizedRead { path: String, len: usize },
}

impl SyncError {
    /// The path that the error is about.
    pub fn path(&self) -> (r: &String)
        ensures
            *r == match self {
                SyncError::MetadataUnavailable { path } => *path,
                SyncError::RefusedOverwrite { path } => *path,
                SyncError::Io { path, .. } => *path,
                SyncError::OversizedRead { path, .. } => *path,
            },
    {
        match self {
            SyncError::MetadataUnavailable { path } => path,
            SyncError::RefusedOverwrite { path } => path,
            SyncError::Io { path, .. } => path,
            SyncError::OversizedRead { path, .. } => path,
        }
    }
}

#[verifier::external_type_specification]
#[verifier::external_body]
pub struct ExIoError(std::io::Error);

/// Relies on std::io::Error::new: an error of kind `Other` carrying the message.
#[verifier::external_body]
fn other_io_error(message: String) -> (r: std::io::Error) {
    std::io::Error::new(std::io::ErrorKind::Other, message)
}

/// An I/O error of kind `Other` whose text is `message`.
pub fn to_io_error(message: String) -> (r: std::io::Error) {
    other_io_error(message)
}

} // verus!
