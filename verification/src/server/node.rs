use vstd::prelude::*;
use vstd::string::*;

use crate::server::paths::{path_join, path_parent, path_parent_of, spec_path_join};

verus! {

/// A node of the file system served to clients.
pub struct NodeImpl {
    path: String,
}

impl NodeImpl {
    /// Serves the node at `path`.
    pub fn new(path: &str) -> (r: NodeImpl)
        ensures
            r.path_view() == path@,
    {
        NodeImpl { path: String::from_str(path) }
    }

    pub closed spec fn path_view(&self) -> Seq<char> {
        self.path@
    }

    /// Where a link called `name` to this node goes: beside the node, in
    /// its parent directory; `None` when the node's path has no parent.
    pub fn link_path(&self, name: &str) -> (r: Option<String>)
        ensures
            match path_parent_of(self.path_view()) {
                None => r is None,
                Some(parent) => r matches Some(p) && p@ == spec_path_join(parent, name@),
            },
    {
        match path_parent(self.path.as_str()) {
            None => None,
            Some(parent) => Some(path_join(parent.as_str(), name)),
        }
    }
}

} // verus!
