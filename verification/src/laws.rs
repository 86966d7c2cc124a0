//! What holds of a store and its backing file over one or more steps.
//!
//! The file is taken as the sequence of its bytes and the filesystem as
//! `after_open` and `after_write` describe it. A store follows its handle: as
//! long as nothing else writes to the file, the handle stands at the end of
//! the file, and every document lands behind all bytes that are there.

use crate::doc_db::FileDrvView;
use crate::file::{after_open, after_write, OpenMode};
use vstd::prelude::*;

verus! {

/// The handle of `store` stands at the end of `file`.
pub open spec fn at_end(store: FileDrvView, file: Seq<u8>) -> bool {
    store.position == file.len()
}

/// Constructing a store where no file exists creates an empty file, and the
/// store stands at its end.
pub proof fn lemma_construct_creates_empty_file(path: Seq<char>)
    ensures
        after_open(None, OpenMode::spec_create()) == Some(Seq::<u8>::empty()),
        at_end(FileDrvView::opened(path, 0), Seq::<u8>::empty()),
{
}

/// Constructing a store on an existing file leaves every byte of it in place,
/// and the store stands at its end.
pub proof fn lemma_construct_keeps_existing_bytes(path: Seq<char>, existing: Seq<u8>)
    ensures
        after_open(Some(existing), OpenMode::spec_create()) == Some(existing),
        at_end(FileDrvView::opened(path, existing.len()), existing),
{
}

/// A reload creates nothing and alters nothing: where no file exists it cannot
/// succeed, and where one exists its bytes stay in place.
pub proof fn lemma_reload_keeps_file(before: Option<Seq<u8>>)
    ensures
        after_open(before, OpenMode::spec_existing()) == before,
{
}

/// Appending a document to a store that stands at the end of its file puts
/// the document's bytes, and nothing else, behind what the file held: the file
/// grows by exactly the document's length, and the store stands at the new end.
pub proof fn lemma_append_grows_file_by_document(
    store: FileDrvView,
    file: Seq<u8>,
    document: Seq<u8>,
)
    requires
        at_end(store, file),
    ensures
        after_write(file, store.position, document) == file + document,
        after_write(file, store.position, document).len() == file.len() + document.len(),
        at_end(store.advanced(document.len()), file + document),
{
    assert(after_write(file, store.position, document) =~= file + document);
}

/// Two documents appended in turn through one store lie in the file one
/// directly behind the other, in the order of the calls.
pub proof fn lemma_appends_are_adjacent(
    store: FileDrvView,
    file: Seq<u8>,
    first: Seq<u8>,
    second: Seq<u8>,
)
    requires
        at_end(store, file),
    ensures
        ({
            let after_first = after_write(file, store.position, first);
            let moved = store.advanced(first.len());
            after_write(after_first, moved.position, second) == file + first + second
        }),
{
    lemma_append_grows_file_by_document(store, file, first);
    lemma_append_grows_file_by_document(store.advanced(first.len()), file + first, second);
}

/// A reload looks at the file as it is now. Whatever position the store had,
/// and whatever has been added to the file by others in the meantime, the next
/// document lands behind all bytes that the file holds at the reload.
pub proof fn lemma_reload_appends_after_foreign_bytes(
    store: FileDrvView,
    file: Seq<u8>,
    foreign: Seq<u8>,
    document: Seq<u8>,
)
    ensures
        ({
            let current = file + foreign;
            let reloaded = store.reopened(current.len());
            &&& at_end(reloaded, current)
            &&& after_write(current, reloaded.position, document) == file + foreign + document
            &&& reloaded.path == store.path
            &&& reloaded.header_offset == store.header_offset
        }),
{
    let current = file + foreign;
    lemma_append_grows_file_by_document(store.reopened(current.len()), current, document);
}

/// A write that the filesystem cut short leaves the part it took at the end of
/// the file, and the store stands behind that part.
pub proof fn lemma_short_write_leaves_prefix(
    store: FileDrvView,
    file: Seq<u8>,
    document: Seq<u8>,
    taken: nat,
)
    requires
        at_end(store, file),
        taken <= document.len(),
    ensures
        after_write(file, store.position, document.take(taken as int)) == file + document.take(
            taken as int,
        ),
        at_end(store.advanced(taken), file + document.take(taken as int)),
{
    lemma_append_grows_file_by_document(store, file, document.take(taken as int));
}

} // verus!
