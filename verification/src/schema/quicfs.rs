use vstd::prelude::*;
use vstd::string::*;

use crate::schema::data::{FileAttributes, FsStat};
use crate::schema::rpc::RpcData;
use crate::text::str_eq;

verus! {

/// Asks about the node that a handle names.
#[derive(Clone, Debug)]
pub struct GenericNodeRequest {
    pub handle_id: Vec<u8>,
}

/// The outcome of a request whose answer arrives later.
#[derive(Clone, Debug)]
pub enum AsyncData {
    Error(String),
    Servers(u32),
}

#[derive(Clone, Debug)]
pub struct AsyncResponse {
    pub async_data: Option<AsyncData>,
}

/// Asks the server to mount the tree at `path`.
#[derive(Clone, Debug)]
pub struct MountRequest {
    pub path: String,
}

#[derive(Clone, Debug)]
pub enum MountData {
    Error(String),
    HandleId(Vec<u8>),
}

#[derive(Clone, Debug)]
pub struct MountResponse {
    pub mount_data: Option<MountData>,
}

#[derive(Clone, Debug)]
pub enum FsstatData {
    Error(String),
    Fsstat(FsStat),
}

#[derive(Clone, Debug)]
pub struct FsStatResponse {
    pub fsstat_data: Option<FsstatData>,
}

#[derive(Clone, Debug)]
pub enum GetattrData {
    Error(String),
    Attributes(FileAttributes),
}

#[derive(Clone, Debug)]
pub struct GetattrResponse {
    pub getattr_data: Option<GetattrData>,
}

/// Asks for the entries of the directory that a handle names.
#[derive(Clone, Debug)]
pub struct ReaddirRequest {
    pub handle_id: Vec<u8>,
}

#[derive(Clone, Debug)]
pub struct ReaddirResponse {
    pub error: String,
    pub attributes: Vec<FileAttributes>,
    pub offset: u64,
    pub size: u64,
    pub eof: bool,
}

/// Asks for `size` bytes from `offset` of the file that a handle names.
#[derive(Clone, Debug)]
pub struct ReadRequest {
    pub handle_id: Vec<u8>,
    pub offset: u64,
    pub size: u64,
}

#[derive(Clone, Debug)]
pub struct ReadResponse {
    pub error: String,
    pub data: Vec<u8>,
    pub offset: u64,
    pub size: u64,
    pub eof: bool,
}

/// The methods of the quicfs service.
#[derive(Clone, Copy, Debug, PartialEq, Eq, Structural)]
pub enum QuicfsMethod {
    Undefined,
    FSStat,
    Mount,
    Getattr,
    Readdir,
    Read,
}

/// A request of the quicfs service.
#[derive(Clone, Debug)]
pub enum QuicfsRequest {
    FSStat(GenericNodeRequest),
    Mount(MountRequest),
    Getattr(GenericNodeRequest),
    Readdir(ReaddirRequest),
    Read(ReadRequest),
}

/// A response of the quicfs service.
#[derive(Clone, Debug)]
pub enum QuicfsResponse {
    FSStat(FsStatResponse),
    Mount(MountResponse),
    Getattr(GetattrResponse),
    Readdir(ReaddirResponse),
    Read(ReadResponse),
}

/// The error an envelope that names no known method is answered with.
#[derive(Debug)]
pub struct RpcDecodeError {
    pub message: String,
}

/// The name a method travels under in an `RpcData` envelope.
pub open spec fn quicfs_method_name(m: QuicfsMethod) -> Seq<char> {
    match m {
        QuicfsMethod::Undefined => "Undefined"@,
        QuicfsMethod::FSStat => "Quicfs::FSStat"@,
        QuicfsMethod::Mount => "Quicfs::Mount"@,
        QuicfsMethod::Getattr => "Quicfs::Getattr"@,
        QuicfsMethod::Readdir => "Quicfs::Readdir"@,
        QuicfsMethod::Read => "Quicfs::Read"@,
    }
}

/// The method an envelope's method name stands for; `Undefined` for any
/// name that is not one of the service's methods.
pub open spec fn quicfs_method_from_name(s: Seq<char>) -> QuicfsMethod {
    if s == "Quicfs::FSStat"@ {
        QuicfsMethod::FSStat
    } else if s == "Quicfs::Mount"@ {
        QuicfsMethod::Mount
    } else if s == "Quicfs::Getattr"@ {
        QuicfsMethod::Getattr
    } else if s == "Quicfs::Readdir"@ {
        QuicfsMethod::Readdir
    } else if s == "Quicfs::Read"@ {
        QuicfsMethod::Read
    } else {
        QuicfsMethod::Undefined
    }
}

/// The text of the error for an envelope whose method name is `method`.
pub open spec fn unrecognised_method_message(method: Seq<char>) -> Seq<char> {
    "Unrecognised RPC method "@ + method
}

/// The method a request belongs to.
pub open spec fn request_method(r: QuicfsRequest) -> QuicfsMethod {
    match r {
        QuicfsRequest::FSStat(_) => QuicfsMethod::FSStat,
        QuicfsRequest::Mount(_) => QuicfsMethod::Mount,
        QuicfsRequest::Getattr(_) => QuicfsMethod::Getattr,
        QuicfsRequest::Readdir(_) => QuicfsMethod::Readdir,
        QuicfsRequest::Read(_) => QuicfsMethod::Read,
    }
}

/// The method a response belongs to.
pub open spec fn response_method(r: QuicfsResponse) -> QuicfsMethod {
    match r {
        QuicfsResponse::FSStat(_) => QuicfsMethod::FSStat,
        QuicfsResponse::Mount(_) => QuicfsMethod::Mount,
        QuicfsResponse::Getattr(_) => QuicfsMethod::Getattr,
        QuicfsResponse::Readdir(_) => QuicfsMethod::Readdir,
        QuicfsResponse::Read(_) => QuicfsMethod::Read,
    }
}

/// The method and encoded body an envelope carries, or the error it is
/// refused with when its method name is unknown.
pub open spec fn envelope_contents(method: Seq<char>, body: Seq<u8>) -> Result<
    (QuicfsMethod, Seq<u8>),
    Seq<char>,
> {
    let m = quicfs_method_from_name(method);
    if m == QuicfsMethod::Undefined {
        Err(unrecognised_method_message(method))
    } else {
        Ok((m, body))
    }
}

impl QuicfsMethod {
    /// The name this method travels under in an envelope.
    pub fn to_name(&self) -> (r: String)
        ensures
            r@ == quicfs_method_name(*self),
    {
        match self {
            QuicfsMethod::Undefined => String::from_str("Undefined"),
            QuicfsMethod::FSStat => String::from_str("Quicfs::FSStat"),
            QuicfsMethod::Mount => String::from_str("Quicfs::Mount"),
            QuicfsMethod::Getattr => String::from_str("Quicfs::Getattr"),
            QuicfsMethod::Readdir => String::from_str("Quicfs::Readdir"),
            QuicfsMethod::Read => String::from_str("Quicfs::Read"),
        }
    }

    /// The method a name stands for; `Undefined` for an unknown name.
    pub fn from_name(method_str: &str) -> (r: QuicfsMethod)
        ensures
            r == quicfs_method_from_name(method_str@),
    {
        if str_eq(method_str, "Quicfs::FSStat") {
            QuicfsMethod::FSStat
        } else if str_eq(method_str, "Quicfs::Mount") {
            QuicfsMethod::Mount
        } else if str_eq(method_str, "Quicfs::Getattr") {
            QuicfsMethod::Getattr
        } else if str_eq(method_str, "Quicfs::Readdir") {
            QuicfsMethod::Readdir
        } else if str_eq(method_str, "Quicfs::Read") {
            QuicfsMethod::Read
        } else {
            QuicfsMethod::Undefined
        }
    }

    /// The envelope for a message of this method that encodes to `body`.
    pub fn envelope(&self, body: Vec<u8>) -> (r: RpcData)
        ensures
            r.method@ == quicfs_method_name(*self),
            r.body@ == body@,
            r.direction == 0,
    {
        RpcData { method: self.to_name(), body, direction: 0 }
    }

    /// Opens an envelope: the method it names and the body to decode as
    /// that method's message, or the error for an unknown method name.
    pub fn from_rpc(rpc: RpcData) -> (r: Result<(QuicfsMethod, Vec<u8>), RpcDecodeError>)
        ensures
            match r {
                Ok((m, body)) => envelope_contents(rpc.method@, rpc.body@) == Ok::<
                    (QuicfsMethod, Seq<u8>),
                    Seq<char>,
                >((m, body@)),
                Err(e) => envelope_contents(rpc.method@, rpc.body@) == Err::<
                    (QuicfsMethod, Seq<u8>),
                    Seq<char>,
                >(e.message@),
            },
    {
        let method = QuicfsMethod::from_name(rpc.method.as_str());
        match method {
            QuicfsMethod::Undefined => {
                let mut message = String::from_str("Unrecognised RPC method ");
                message.append(rpc.method.as_str());
                Err(RpcDecodeError { message })
            },
            _ => Ok((method, rpc.body)),
        }
    }
}

impl From<String> for QuicfsMethod {
    fn from(method_str: String) -> (r: QuicfsMethod) {
        QuicfsMethod::from_name(method_str.as_str())
    }
}

impl vstd::std_specs::convert::FromSpecImpl<String> for QuicfsMethod {
    open spec fn obeys_from_spec() -> bool {
        true
    }

    open spec fn from_spec(v: String) -> QuicfsMethod {
        quicfs_method_from_name(v@)
    }
}

impl QuicfsRequest {
    /// The method this request belongs to.
    pub fn method(&self) -> (r: QuicfsMethod)
        ensures
            r == request_method(*self),
    {
        match self {
            QuicfsRequest::FSStat(_) => QuicfsMethod::FSStat,
            QuicfsRequest::Mount(_) => QuicfsMethod::Mount,
            QuicfsRequest::Getattr(_) => QuicfsMethod::Getattr,
            QuicfsRequest::Readdir(_) => QuicfsMethod::Readdir,
            QuicfsRequest::Read(_) => QuicfsMethod::Read,
        }
    }

    /// Puts this request, whose message encodes to `body`, in an envelope.
    pub fn to_rpc(&self, body: Vec<u8>) -> (r: RpcData)
        ensures
            r.method@ == quicfs_method_name(request_method(*self)),
            r.body@ == body@,
            r.direction == 0,
    {
        self.method().envelope(body)
    }
}

impl QuicfsResponse {
    /// The method this response belongs to.
    pub fn method(&self) -> (r: QuicfsMethod)
        ensures
            r == response_method(*self),
    {
        match self {
            QuicfsResponse::FSStat(_) => QuicfsMethod::FSStat,
            QuicfsResponse::Mount(_) => QuicfsMethod::Mount,
            QuicfsResponse::Getattr(_) => QuicfsMethod::Getattr,
            QuicfsResponse::Readdir(_) => QuicfsMethod::Readdir,
            QuicfsResponse::Read(_) => QuicfsMethod::Read,
        }
    }

    /// Puts this response, whose message encodes to `body`, in an envelope.
    pub fn to_rpc(&self, body: Vec<u8>) -> (r: RpcData)
        ensures
            r.method@ == quicfs_method_name(response_method(*self)),
            r.body@ == body@,
            r.direction == 0,
    {
        self.method().envelope(body)
    }
}

proof fn reveal_method_names()
    ensures
        "Undefined"@ =~= seq!['U', 'n', 'd', 'e', 'f', 'i', 'n', 'e', 'd'],
        "Quicfs::FSStat"@.len() == 14,
        "Quicfs::Mount"@.len() == 13,
        "Quicfs::Getattr"@.len() == 15,
        "Quicfs::Readdir"@.len() == 15,
        "Quicfs::Read"@.len() == 12,
        "Quicfs::Getattr"@[8] == 'G',
        "Quicfs::Readdir"@[8] == 'R',
{
    reveal_strlit("Undefined");
    reveal_strlit("Quicfs::FSStat");
    reveal_strlit("Quicfs::Mount");
    reveal_strlit("Quicfs::Getattr");
    reveal_strlit("Quicfs::Readdir");
    reveal_strlit("Quicfs::Read");
}

/// Reading back the name of any method, `Undefined` included, gives that
/// method.
pub proof fn lemma_method_name_roundtrip(m: QuicfsMethod)
    ensures
        quicfs_method_from_name(quicfs_method_name(m)) == m,
{
    reveal_method_names();
}

/// A name that stands for a method of the service is exactly that method's
/// name.
pub proof fn lemma_method_parse_inverse(s: Seq<char>)
    ensures
        quicfs_method_from_name(s) != QuicfsMethod::Undefined ==> quicfs_method_name(
            quicfs_method_from_name(s),
        ) == s,
{
}

/// Opening the envelope of a request gives back the request's method and
/// the body it was put in with.
pub proof fn lemma_request_envelope_roundtrip(r: QuicfsRequest, body: Seq<u8>)
    ensures
        envelope_contents(quicfs_method_name(request_method(r)), body) == Ok::<
            (QuicfsMethod, Seq<u8>),
            Seq<char>,
        >((request_method(r), body)),
{
    lemma_method_name_roundtrip(request_method(r));
}

/// Opening the envelope of a response gives back the response's method and
/// the body it was put in with.
pub proof fn lemma_response_envelope_roundtrip(r: QuicfsResponse, body: Seq<u8>)
    ensures
        envelope_contents(quicfs_method_name(response_method(r)), body) == Ok::<
            (QuicfsMethod, Seq<u8>),
            Seq<char>,
        >((response_method(r), body)),
{
    lemma_method_name_roundtrip(response_method(r));
}

/// Each method travels under its own name in the service's schema: the
/// service prefix `Quicfs::` followed by the method's name, and that name is
/// read back as that method.
pub proof fn lemma_method_schema_names()
    ensures
        quicfs_method_name(QuicfsMethod::FSStat) == "Quicfs::"@ + seq!['F', 'S', 'S', 't', 'a', 't'],
        quicfs_method_name(QuicfsMethod::Mount) == "Quicfs::"@ + seq!['M', 'o', 'u', 'n', 't'],
        quicfs_method_name(QuicfsMethod::Getattr) == "Quicfs::"@ + seq![
            'G', 'e', 't', 'a', 't', 't', 'r',
        ],
        quicfs_method_name(QuicfsMethod::Readdir) == "Quicfs::"@ + seq![
            'R', 'e', 'a', 'd', 'd', 'i', 'r',
        ],
        quicfs_method_name(QuicfsMethod::Read) == "Quicfs::"@ + seq!['R', 'e', 'a', 'd'],
        quicfs_method_name(QuicfsMethod::Undefined) == seq!['U', 'n', 'd', 'e', 'f', 'i', 'n', 'e', 'd'],
        quicfs_method_from_name("Quicfs::"@ + seq!['F', 'S', 'S', 't', 'a', 't']) == QuicfsMethod::FSStat,
        quicfs_method_from_name("Quicfs::"@ + seq!['M', 'o', 'u', 'n', 't']) == QuicfsMethod::Mount,
        quicfs_method_from_name("Quicfs::"@ + seq!['G', 'e', 't', 'a', 't', 't', 'r'])
            == QuicfsMethod::Getattr,
        quicfs_method_from_name("Quicfs::"@ + seq!['R', 'e', 'a', 'd', 'd', 'i', 'r'])
            == QuicfsMethod::Readdir,
        quicfs_method_from_name("Quicfs::"@ + seq!['R', 'e', 'a', 'd']) == QuicfsMethod::Read,
{
    reveal_strlit("Quicfs::");
    reveal_strlit("Undefined");
    reveal_strlit("Quicfs::FSStat");
    reveal_strlit("Quicfs::Mount");
    reveal_strlit("Quicfs::Getattr");
    reveal_strlit("Quicfs::Readdir");
    reveal_strlit("Quicfs::Read");
    assert("Quicfs::"@ + seq!['F', 'S', 'S', 't', 'a', 't'] =~= "Quicfs::FSStat"@);
    assert("Quicfs::"@ + seq!['M', 'o', 'u', 'n', 't'] =~= "Quicfs::Mount"@);
    assert("Quicfs::"@ + seq!['G', 'e', 't', 'a', 't', 't', 'r'] =~= "Quicfs::Getattr"@);
    assert("Quicfs::"@ + seq!['R', 'e', 'a', 'd', 'd', 'i', 'r'] =~= "Quicfs::Readdir"@);
    assert("Quicfs::"@ + seq!['R', 'e', 'a', 'd'] =~= "Quicfs::Read"@);
    assert("Undefined"@ =~= seq!['U', 'n', 'd', 'e', 'f', 'i', 'n', 'e', 'd']);
    lemma_method_name_roundtrip(QuicfsMethod::FSStat);
    lemma_method_name_roundtrip(QuicfsMethod::Mount);
    lemma_method_name_roundtrip(QuicfsMethod::Getattr);
    lemma_method_name_roundtrip(QuicfsMethod::Readdir);
    lemma_method_name_roundtrip(QuicfsMethod::Read);
}

} // verus!
