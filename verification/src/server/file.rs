use vstd::prelude::*;
use vstd::string::*;

use crate::server::directory::{ErrorCode, NodeError};

verus! {

/// A file served to clients.
pub struct FileImpl {
    path: String,
}

impl FileImpl {
    /// Serves the file at `path`.
    pub fn new(path: &str) -> (r: FileImpl)
        ensures
            r.path_view() == path@,
    {
        FileImpl { path: String::from_str(path) }
    }

    pub closed spec fn path_view(&self) -> Seq<char> {
        self.path@
    }

    /// The path of this file.
    pub fn path(&self) -> (r: &str)
        ensures
            r@ == self.path_view(),
    {
        self.path.as_str()
    }

    /// Whether a read of `count` bytes that got `readlen` bytes reached the
    /// end of the file: it got fewer than it asked for.
    pub fn read_reached_end(readlen: usize, count: u64) -> (eof: bool)
        ensures
            eof == (readlen < count as usize),
    {
        readlen < count as usize
    }

    /// The error a read that could not open the file answers with.
    pub fn open_failed(message: String) -> (e: NodeError)
        ensures
            e.code == ErrorCode::Unknown,
            e.message@ == message@,
    {
        NodeError { code: ErrorCode::Unknown, message }
    }
}

} // verus!
