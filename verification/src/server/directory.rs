use vstd::prelude::*;
use vstd::string::*;

use crate::server::paths::{path_join, spec_path_join};

verus! {

/// The error codes of node operations.
#[derive(Clone, Copy, Debug, PartialEq, Eq, Structural)]
pub enum ErrorCode {
    Unknown,
    NoEntity,
    Exists,
}

/// The error a node operation answers with.
pub struct NodeError {
    pub code: ErrorCode,
    pub message: String,
}

/// The answer to looking up a name in a directory.
pub enum LookupOutcome {
    /// The entry exists at this path.
    Found(String),
    Missing(NodeError),
}

/// What creating a file in a directory does.
pub enum CreateOutcome {
    /// Hand out the file at this path without touching the file system.
    OpenUnchecked(String),
    /// Create the file at this path, then hand it out.
    CreateFile(String),
    /// Refuse: the entry exists.
    Exists(NodeError),
}

/// What making a directory in a directory does.
pub enum MkdirOutcome {
    /// Create the directory at this path, then hand it out.
    CreateDir(String),
    /// Refuse: the entry exists.
    Exists(NodeError),
}

/// `"<name> does not exist"`
pub open spec fn missing_message(name: Seq<char>) -> Seq<char> {
    name + " does not exist"@
}

/// `"<name> exists"`
pub open spec fn exists_message(name: Seq<char>) -> Seq<char> {
    name + " exists"@
}

/// A directory served to clients.
pub struct DirectoryImpl {
    path: String,
}

impl DirectoryImpl {
    /// Serves the directory at `path`.
    pub fn new(path: &str) -> (r: DirectoryImpl)
        ensures
            r.path_view() == path@,
    {
        DirectoryImpl { path: String::from_str(path) }
    }

    pub closed spec fn path_view(&self) -> Seq<char> {
        self.path@
    }

    /// The path of this directory.
    pub fn path(&self) -> (r: &str)
        ensures
            r@ == self.path_view(),
    {
        self.path.as_str()
    }

    /// The path of the entry `name` of this directory.
    pub fn child_path(&self, name: &str) -> (r: String)
        ensures
            r@ == spec_path_join(self.path_view(), name@),
    {
        path_join(self.path.as_str(), name)
    }

    /// Looks up `name`, given whether its path exists: the entry if it
    /// does, a no-entity error if not.
    pub fn lookup(&self, name: &str, exists: bool) -> (r: LookupOutcome)
        ensures
            match r {
                LookupOutcome::Found(p) => exists && p@ == spec_path_join(self.path_view(), name@),
                LookupOutcome::Missing(e) => !exists && e.code == ErrorCode::NoEntity
                    && e.message@ == missing_message(name@),
            },
    {
        if exists {
            LookupOutcome::Found(self.child_path(name))
        } else {
            let mut message = String::from_str(name);
            message.append(" does not exist");
            LookupOutcome::Missing(NodeError { code: ErrorCode::NoEntity, message })
        }
    }

    /// Creates the file `name`, given whether its path exists. An unchecked
    /// create hands the file out without looking; otherwise an existing
    /// entry is refused and a missing one created.
    pub fn create(&self, name: &str, unchecked: bool, exists: bool) -> (r: CreateOutcome)
        ensures
            match r {
                CreateOutcome::OpenUnchecked(p) => unchecked && p@ == spec_path_join(
                    self.path_view(),
                    name@,
                ),
                CreateOutcome::CreateFile(p) => !unchecked && !exists && p@ == spec_path_join(
                    self.path_view(),
                    name@,
                ),
                CreateOutcome::Exists(e) => !unchecked && exists && e.code == ErrorCode::Exists
                    && e.message@ == exists_message(name@),
            },
    {
        if unchecked {
            return CreateOutcome::OpenUnchecked(self.child_path(name));
        }
        if exists {
            let mut message = String::from_str(name);
            message.append(" exists");
            CreateOutcome::Exists(NodeError { code: ErrorCode::Exists, message })
        } else {
            CreateOutcome::CreateFile(self.child_path(name))
        }
    }

    /// Makes the directory `name`, given whether its path exists: an
    /// existing entry is refused, a missing one created.
    pub fn mkdir(&self, name: &str, exists: bool) -> (r: MkdirOutcome)
        ensures
            match r {
                MkdirOutcome::CreateDir(p) => !exists && p@ == spec_path_join(
                    self.path_view(),
                    name@,
                ),
                MkdirOutcome::Exists(e) => exists && e.code == ErrorCode::Exists && e.message@
                    == exists_message(name@),
            },
    {
        if exists {
            let mut message = String::from_str(name);
            message.append(" exists");
            MkdirOutcome::Exists(NodeError { code: ErrorCode::Exists, message })
        } else {
            MkdirOutcome::CreateDir(self.child_path(name))
        }
    }
}

} // verus!
