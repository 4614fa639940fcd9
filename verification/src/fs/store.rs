//! An idealised file store, against which the laws of the write and backup
//! protocols are stated.
//!
//! The store holds the contents of each file by its path. Directories are
//! not part of it: every directory that a protocol asks for can be made.
//! Nothing here runs; the functions say what the file operations that a
//! protocol asks for would do if nothing else touched the store.

use vstd::prelude::*;

verus! {

/// The files of a store: contents by path.
pub type FileStore = Map<Seq<char>, Seq<u8>>;

/// Whether a file stands at `path`.
pub open spec fn holds(store: FileStore, path: Seq<char>) -> bool {
    store.dom().contains(path)
}

/// Creating `path` exclusively: an empty file where none stood, and a
/// refusal, written as nothing, where one did.
pub open spec fn create_exclusive(store: FileStore, path: Seq<char>) -> Option<FileStore> {
    if holds(store, path) {
        None
    } else {
        Some(store.insert(path, Seq::empty()))
    }
}

/// Creating `path` or emptying the file that stands there.
pub open spec fn create_or_truncate(store: FileStore, path: Seq<char>) -> FileStore {
    store.insert(path, Seq::empty())
}

/// Writing `contents` to the open, empty file at `path`.
pub open spec fn write_all(store: FileStore, path: Seq<char>, contents: Seq<u8>) -> FileStore {
    store.insert(path, contents)
}

/// Copying the bytes of the file at `from` into the file at `to`.
pub open spec fn copy(store: FileStore, from: Seq<char>, to: Seq<char>) -> FileStore {
    store.insert(to, store[from])
}

} // verus!
