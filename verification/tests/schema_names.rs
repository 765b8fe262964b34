use quicfs::schema::data::FileType;
use quicfs::schema::quicfs::{
    QuicfsMethod, QuicfsRequest, QuicfsResponse, ReadRequest, ReaddirRequest, ReaddirResponse,
};
use quicfs::schema::rpc::{RpcData, RpcDirection};

#[test]
fn file_type_names_round_trip() {
    let all = [
        FileType::Unspecified,
        FileType::Regular,
        FileType::Directory,
        FileType::Block,
        FileType::Character,
        FileType::Link,
        FileType::Socket,
        FileType::Fifo,
    ];
    for t in all {
        assert_eq!(FileType::from_str_name(t.as_str_name()), Some(t));
    }
}

#[test]
fn file_type_names_are_the_schema_names() {
    assert_eq!(FileType::Unspecified.as_str_name(), "FILE_TYPE_UNSPECIFIED");
    assert_eq!(FileType::Regular.as_str_name(), "FILE_TYPE_REGULAR");
    assert_eq!(FileType::Directory.as_str_name(), "FILE_TYPE_DIRECTORY");
    assert_eq!(FileType::Block.as_str_name(), "FILE_TYPE_BLOCK");
    assert_eq!(FileType::Character.as_str_name(), "FILE_TYPE_CHARACTER");
    assert_eq!(FileType::Link.as_str_name(), "FILE_TYPE_LINK");
    assert_eq!(FileType::Socket.as_str_name(), "FILE_TYPE_SOCKET");
    assert_eq!(FileType::Fifo.as_str_name(), "FILE_TYPE_FIFO");
}

#[test]
fn file_type_unknown_names_are_refused() {
    assert_eq!(FileType::from_str_name(""), None);
    assert_eq!(FileType::from_str_name("file_type_regular"), None);
    assert_eq!(FileType::from_str_name("FILE_TYPE_REGULAR "), None);
    assert_eq!(FileType::from_str_name("FILE_TYPE"), None);
}

#[test]
fn rpc_direction_names_round_trip() {
    for d in [RpcDirection::Unspecified, RpcDirection::Request, RpcDirection::Response] {
        assert_eq!(RpcDirection::from_str_name(d.as_str_name()), Some(d));
    }
    assert_eq!(RpcDirection::Request.as_str_name(), "RPC_DIRECTION_REQUEST");
    assert_eq!(RpcDirection::Response.as_str_name(), "RPC_DIRECTION_RESPONSE");
    assert_eq!(RpcDirection::Unspecified.as_str_name(), "RPC_DIRECTION_UNSPECIFIED");
    assert_eq!(RpcDirection::from_str_name("RPC_DIRECTION_SIDEWAYS"), None);
}

#[test]
fn method_names_round_trip_for_every_method() {
    let all = [
        QuicfsMethod::Undefined,
        QuicfsMethod::FSStat,
        QuicfsMethod::Mount,
        QuicfsMethod::Getattr,
        QuicfsMethod::Readdir,
        QuicfsMethod::Read,
    ];
    for m in all {
        assert_eq!(QuicfsMethod::from_name(&m.to_name()), m);
        assert_eq!(QuicfsMethod::from(m.to_name()), m);
    }
    assert_eq!(QuicfsMethod::Readdir.to_name(), "Quicfs::Readdir");
    assert_eq!(QuicfsMethod::FSStat.to_name(), "Quicfs::FSStat");
    assert_eq!(QuicfsMethod::Undefined.to_name(), "Undefined");
    assert_eq!(QuicfsMethod::from_name("Quicfs::Write"), QuicfsMethod::Undefined);
}

#[test]
fn request_envelope_carries_method_and_body() {
    let req = QuicfsRequest::Readdir(ReaddirRequest { handle_id: b"1".to_vec() });
    let rpc = req.to_rpc(vec![10, 1, 49]);
    assert_eq!(rpc.method, "Quicfs::Readdir");
    assert_eq!(rpc.body, vec![10, 1, 49]);
    assert_eq!(rpc.direction, 0);
    let (method, body) = match QuicfsMethod::from_rpc(rpc) {
        Ok(v) => v,
        Err(_) => panic!("envelope refused"),
    };
    assert_eq!(method, QuicfsMethod::Readdir);
    assert_eq!(body, vec![10, 1, 49]);
}

#[test]
fn response_envelope_carries_method_and_body() {
    let resp = QuicfsResponse::Readdir(ReaddirResponse {
        error: String::new(),
        attributes: Vec::new(),
        offset: 0,
        size: 0,
        eof: true,
    });
    assert_eq!(resp.method(), QuicfsMethod::Readdir);
    let rpc = resp.to_rpc(vec![40, 1]);
    assert_eq!(rpc.method, "Quicfs::Readdir");
    let read = QuicfsRequest::Read(ReadRequest { handle_id: vec![7], offset: 3, size: 9 });
    assert_eq!(read.method(), QuicfsMethod::Read);
}

#[test]
fn unknown_method_envelope_is_refused_with_its_name() {
    let rpc = RpcData { method: "Quicfs::Write".to_string(), body: vec![1, 2], direction: 1 };
    match QuicfsMethod::from_rpc(rpc) {
        Ok(_) => panic!("unknown method accepted"),
        Err(e) => assert_eq!(e.message, "Unrecognised RPC method Quicfs::Write"),
    }
    let rpc = RpcData { method: "Undefined".to_string(), body: Vec::new(), direction: 0 };
    match QuicfsMethod::from_rpc(rpc) {
        Ok(_) => panic!("Undefined accepted"),
        Err(e) => assert_eq!(e.message, "Unrecognised RPC method Undefined"),
    }
}
