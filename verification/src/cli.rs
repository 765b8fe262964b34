use vstd::prelude::*;

verus! {

/// The command line of the quicfs program.
pub struct QuicFSCli {
    pub command: Commands,
}

/// What the program runs as.
pub enum Commands {
    /// Connect to `server`, optionally copying `src` to `dest`.
    Client { server: String, src: Option<String>, dest: Option<String> },
    /// Listen on `listen`, optionally serving the tree at `serve`.
    Server { listen: String, serve: Option<String> },
}

} // verus!
