//! What the store asks of the filesystem, and a model of what the filesystem
//! does with a file's bytes.

use vstd::prelude::*;

verus! {

/// The way in which a file is to be opened.
#[derive(Clone, Copy, Debug, PartialEq, Eq, Structural)]
pub struct OpenMode {
    /// Open for reading.
    pub read: bool,
    /// Open for writing.
    pub write: bool,
    /// Create the file where none exists.
    pub create: bool,
    /// Empty the file where one exists.
    pub truncate: bool,
}

impl OpenMode {
    /// The mode of construction, for use in contracts.
    pub open spec fn spec_create() -> OpenMode {
        OpenMode { read: true, write: true, create: true, truncate: false }
    }

    /// The mode of a reload, for use in contracts.
    pub open spec fn spec_existing() -> OpenMode {
        OpenMode { read: true, write: true, create: false, truncate: false }
    }

    /// The mode in which a store is constructed: for reading and writing,
    /// creating the file where it is absent and keeping what it holds where it
    /// is not.
    pub fn create() -> (mode: OpenMode)
        ensures
            mode == OpenMode::spec_create(),
    {
        OpenMode { read: true, write: true, create: true, truncate: false }
    }

    /// The mode in which a store is reloaded: for reading and writing a file
    /// that must exist already.
    pub fn existing() -> (mode: OpenMode)
        ensures
            mode == OpenMode::spec_existing(),
    {
        OpenMode { read: true, write: true, create: false, truncate: false }
    }
}

/// What a path holds once a file has been opened there in `mode`, where
/// `before` is what it held: `None` stands for no file. The result is `None`
/// where the open cannot succeed, because no file is there and none is to be
/// created.
pub open spec fn after_open(before: Option<Seq<u8>>, mode: OpenMode) -> Option<Seq<u8>> {
    match before {
        Some(bytes) => if mode.truncate {
            Some(Seq::empty())
        } else {
            Some(bytes)
        },
        None => if mode.create {
            Some(Seq::empty())
        } else {
            None
        },
    }
}

/// What a file holds once `bytes` have been written at position `at`: the
/// bytes replace what stood in their place and lengthen the file where they
/// reach past its end. A gap between the old end and `at` reads as zeros.
pub open spec fn after_write(file: Seq<u8>, at: nat, bytes: Seq<u8>) -> Seq<u8> {
    let end = at + bytes.len();
    Seq::new(
        if file.len() < end { end } else { file.len() },
        |i: int|
            if at <= i < end {
                bytes[i - at]
            } else if i < file.len() {
                file[i]
            } else {
                0u8
            },
    )
}

} // verus!
