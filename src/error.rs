//! The errors of the file operations.
use vstd::prelude::*;

verus! {

/// Why a file operation failed. A failure below is passed up with the
/// message it came with.
pub enum IpseClientError {
    /// The file to add is empty.
    InvalidInput,
    /// No order of the signer is known under the key.
    NoOrderFound,
    /// A call to the ledger could not be signed, sent or was rejected.
    LedgerSubmission(String),
    /// The ledger's orders could not be read.
    LedgerQuery(String),
    /// The storage backend did not take the bytes.
    StorageUpload(String),
    /// The storage backend did not hand the bytes back.
    StorageDownload(String),
    /// The storage backend did not remove the bytes.
    StorageDelete(String),
}

} // verus!
