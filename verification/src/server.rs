use vstd::prelude::*;
use vstd::string::*;

use crate::error::GeneralError;
use crate::schema::quicfs::{QuicfsRequest, QuicfsResponse, ReaddirRequest, ReaddirResponse};

pub mod directory;
pub mod file;
pub mod node;
pub mod paths;

verus! {

/// A handle the server has given out.
pub struct FileHandle;

/// Answers quicfs requests.
pub struct QuicfsServerHandler {
    handles: Vec<FileHandle>,
}

/// The answer to a directory listing: no entries, end of directory, no
/// error.
pub open spec fn is_empty_listing(r: QuicfsResponse) -> bool {
    match r {
        QuicfsResponse::Readdir(resp) => {
            &&& resp.attributes@.len() == 0
            &&& resp.eof
            &&& resp.error@.len() == 0
            &&& resp.offset == 0
            &&& resp.size == 0
        },
        _ => false,
    }
}

impl QuicfsServerHandler {
    /// A handler that has given out no handles.
    pub fn new() -> (r: QuicfsServerHandler)
        ensures
            r.handle_count() == 0,
    {
        QuicfsServerHandler { handles: Vec::new() }
    }

    pub closed spec fn handle_count(&self) -> nat {
        self.handles@.len()
    }

    /// Answers a request. Only directory listings are served so far.
    pub fn handle_request(&self, request: QuicfsRequest) -> (r: Result<QuicfsResponse, GeneralError>)
        requires
            request is Readdir,
        ensures
            r matches Ok(resp) && is_empty_listing(resp),
    {
        match request {
            QuicfsRequest::Readdir(req) => self.handle_readdir(req),
            _ => Err(GeneralError::from_message("unsupported request")),
        }
    }

    /// Lists a directory: the listing is always empty and complete.
    pub fn handle_readdir(&self, request: ReaddirRequest) -> (r: Result<QuicfsResponse, GeneralError>)
        ensures
            r matches Ok(resp) && is_empty_listing(resp),
    {
        Ok(
            QuicfsResponse::Readdir(
                ReaddirResponse {
                    attributes: Vec::new(),
                    eof: true,
                    error: String::new(),
                    offset: 0,
                    size: 0,
                },
            ),
        )
    }
}

} // verus!
