//! The file-reader command: what the caller is told once the whole file has
//! been read, or could not be.

use vstd::prelude::*;
use vstd::string::*;

verus! {

/// What one read amounts to.
pub enum Content {
    /// The file was read; all its bytes, in order.
    Bytes(Seq<u8>),
    /// The file could not be read; the message.
    Failed(Seq<char>),
}

/// The message for a file that could not be read, around the system's own
/// `reason`.
pub open spec fn read_failure(reason: Seq<char>) -> Seq<char> {
    "Failed to read file: "@ + reason
}

/// Reads a result of the reader as a `Content`.
pub open spec fn content_of(outcome: Result<Vec<u8>, String>) -> Content {
    match outcome {
        Ok(bytes) => Content::Bytes(bytes@),
        Err(message) => Content::Failed(message@),
    }
}

/// What the caller is to be told for the outcome `read` of reading the whole
/// file: the bytes as they were read, be they none at all, and for a read
/// that failed the failure message around the system's reason.
pub open spec fn content_for(read: Result<Vec<u8>, String>) -> Content {
    match read {
        Ok(bytes) => Content::Bytes(bytes@),
        Err(reason) => Content::Failed(read_failure(reason@)),
    }
}

/// Two reads that saw the same, the same bytes or the same reason for
/// failing, are told the same: as long as the file gives the same bytes, so
/// does the reader.
pub proof fn lemma_same_read_same_content(
    first: Result<Vec<u8>, String>,
    second: Result<Vec<u8>, String>,
)
    requires
        content_of(first) == content_of(second),
    ensures
        content_for(first) == content_for(second),
{
}

/// A read that failed is told as a failure and never as bytes, and a read
/// that went through is told as its bytes and never as a failure, also where
/// the file is empty.
pub proof fn lemma_failure_is_never_content(read: Result<Vec<u8>, String>)
    ensures
        read is Err <==> content_for(read) is Failed,
        read is Ok <==> content_for(read) is Bytes,
        read matches Ok(bytes) ==> content_for(read) == Content::Bytes(bytes@),
{
}

/// Tells the caller the outcome `read` of reading the whole file. It succeeds
/// exactly when the read did: a failed read never becomes an empty content,
/// and an empty file never a failure.
pub fn read_file_content(read: Result<Vec<u8>, String>) -> (outcome: Result<Vec<u8>, String>)
    ensures
        outcome is Ok <==> read is Ok,
        content_of(outcome) == content_for(read),
{
    match read {
        Ok(content) => Ok(content),
        Err(reason) => {
            let mut message = String::from_str("Failed to read file: ");
            message.append(reason.as_str());
            Err(message)
        },
    }
}

} // verus!
