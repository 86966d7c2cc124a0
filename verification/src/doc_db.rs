//! The file driver: the state of a store and the steps it takes.
//!
//! A driver stands for one open handle on the backing file. It knows the path
//! it was opened on, the position at which the handle's next write lands, and
//! the size of the header region. Opening, reopening and writing are done by
//! the caller; each function here takes what the filesystem reported and says
//! what the store is afterwards.

use crate::error::WriteError;
use crate::json::{encoding, to_json_text};
use serde_json::Value;
use vstd::prelude::*;
use vstd::string::StrSliceExecFns;
use vstd::string::StringExecFns;
use vstd::utf8::encode_utf8;

verus! {

/// The number of bytes at the start of the backing file that are set aside for
/// a header. The store writes no header yet and does not skip the region
/// either: documents go to the end of the file, wherever that is.
pub const HEADER_OFFSET: i64 = 1024;

/// The driver of one backing file.
pub struct FileDrv {
    path: String,
    position: u64,
    header_offset: i64,
}

/// What a driver is in contracts.
pub struct FileDrvView {
    /// The path of the backing file.
    pub path: Seq<char>,
    /// The position in the file at which the handle's next write lands.
    pub position: nat,
    /// The size of the header region.
    pub header_offset: int,
}

impl FileDrvView {
    /// The store on a handle just opened on `path`, where the file ends at `end`.
    pub open spec fn opened(path: Seq<char>, end: nat) -> FileDrvView {
        FileDrvView { path, position: end, header_offset: HEADER_OFFSET as int }
    }

    /// The store once its handle has been replaced by one just opened on the
    /// same path, where the file now ends at `end`.
    pub open spec fn reopened(self, end: nat) -> FileDrvView {
        FileDrvView { position: end, ..self }
    }

    /// The store once its handle has taken `count` more bytes.
    pub open spec fn advanced(self, count: nat) -> FileDrvView {
        FileDrvView { position: self.position + count, ..self }
    }
}

impl View for FileDrv {
    type V = FileDrvView;

    closed spec fn view(&self) -> FileDrvView {
        FileDrvView {
            path: self.path@,
            position: self.position as nat,
            header_offset: self.header_offset as int,
        }
    }
}

/// The number of bytes that a write moved the handle by, given what the
/// filesystem reported of it: a failed write moves nothing.
pub open spec fn bytes_taken(outcome: Result<usize, std::io::Error>) -> nat {
    match outcome {
        Ok(count) => count as nat,
        Err(_) => 0,
    }
}

/// What an append returns, given the number of bytes handed to the filesystem
/// and what it reported of the write.
pub open spec fn write_result(
    expected: usize,
    outcome: Result<usize, std::io::Error>,
) -> Result<(), WriteError> {
    match outcome {
        Ok(count) => if count == expected {
            Ok(())
        } else {
            Err(WriteError::Short { written: count, expected })
        },
        Err(cause) => Err(WriteError::Io(cause)),
    }
}

/// What stands between the serializer and the file: the bytes to write for a
/// document whose serialization ended in `encoded`. A text goes to the file as
/// its UTF-8 bytes, with no delimiter and no length in front; a refusal of the
/// serializer becomes the error of the append.
pub fn document_bytes(
    encoded: Result<String, serde_json::Error>,
) -> (r: Result<Vec<u8>, WriteError>)
    ensures
        match encoded {
            Ok(text) => r matches Ok(bytes) && bytes@ == encode_utf8(text@),
            Err(cause) => r matches Err(WriteError::Serialize(e)) && e == cause,
        },
{
    match encoded {
        Ok(text) => Ok(text.as_str().as_bytes_vec()),
        Err(cause) => Err(WriteError::Serialize(cause)),
    }
}

impl FileDrv {
    #[verifier::type_invariant]
    spec fn header_is_fixed(self) -> bool {
        self.header_offset == HEADER_OFFSET
    }

    /// The store on a backing file that the caller has just opened at `db_file`
    /// in the mode `OpenMode::create()`, with the handle placed at the end of
    /// the file, which is at `end`.
    pub fn new(db_file: &str, end: u64) -> (store: FileDrv)
        ensures
            store@ == FileDrvView::opened(db_file@, end as nat),
    {
        FileDrv { path: db_file.to_owned(), position: end, header_offset: HEADER_OFFSET }
    }

    /// Takes note that the caller has opened the file at `self.path()` anew, in
    /// the mode `OpenMode::existing()`, and that the new handle stands at the
    /// end of the file, which is at `end`. The former handle is of no account
    /// any more: whatever position it had is forgotten.
    pub fn reload(&mut self, end: u64)
        ensures
            final(self)@ == old(self)@.reopened(end as nat),
    {
        proof {
            use_type_invariant(&*self);
        }
        self.position = end;
    }

    /// Serializes `val` and returns the bytes that the caller is to write
    /// through the handle, at its position: the document's compact JSON text
    /// in UTF-8 and nothing else. A document that the serializer refuses gives
    /// `WriteError::Serialize`, and then nothing is to be written. The store
    /// itself changes only when the write is reported to `record_write`.
    pub fn append_doc(&self, val: &Value) -> (r: Result<Vec<u8>, WriteError>)
        ensures
            match encoding(*val) {
                Some(document) => r matches Ok(bytes) && bytes@ == document,
                None => r matches Err(WriteError::Serialize(_)),
            },
    {
        document_bytes(to_json_text(val))
    }

    /// Takes note of what the filesystem reported of the write of a document of
    /// `expected` bytes, and decides how the append ended. The handle has moved
    /// by the number of bytes that were taken. The append succeeded if that is
    /// the whole document; it failed with `WriteError::Short` if it is not, and
    /// with `WriteError::Io` if the write itself failed.
    ///
    /// The handle's new position must be one that a `u64` can hold, as every
    /// position in a file is.
    pub fn record_write(
        &mut self,
        expected: usize,
        outcome: Result<usize, std::io::Error>,
    ) -> (r: Result<(), WriteError>)
        requires
            old(self)@.position + bytes_taken(outcome) <= u64::MAX,
        ensures
            final(self)@ == old(self)@.advanced(bytes_taken(outcome)),
            r == write_result(expected, outcome),
    {
        proof {
            use_type_invariant(&*self);
        }
        match outcome {
            Ok(count) => {
                self.position = self.position + count as u64;
                if count == expected {
                    Ok(())
                } else {
                    Err(WriteError::Short { written: count, expected })
                }
            },
            Err(cause) => Err(WriteError::Io(cause)),
        }
    }

    /// The path of the backing file.
    pub fn path(&self) -> (path: &str)
        ensures
            path@ == self@.path,
    {
        self.path.as_str()
    }

    /// The position in the file at which the handle's next write lands.
    pub fn position(&self) -> (position: u64)
        ensures
            position == self@.position,
    {
        self.position
    }

    /// The size of the header region, which is the same for every store at all
    /// times.
    pub fn header_offset(&self) -> (offset: i64)
        ensures
            offset == HEADER_OFFSET,
            offset == self@.header_offset,
    {
        proof {
            use_type_invariant(self);
        }
        self.header_offset
    }

    /// The diagnostic for a backing file that could not be opened: it names the
    /// path and the cause that the filesystem gave.
    pub fn open_failure(path: &str, cause: &str) -> (message: String)
        ensures
            message@ == "couldn't open "@ + path@ + ": "@ + cause@,
    {
        let mut message = "couldn't open ".to_owned();
        message.append(path);
        message.append(": ");
        message.append(cause);
        message
    }
}

} // verus!
