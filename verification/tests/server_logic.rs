use quicfs::client::{ClientCommand, CommandLineProcessor};
use quicfs::codec::{QuicfsProtocol, MAX_MESSAGE_SIZE};
use quicfs::error::GeneralError;
use quicfs::schema::quicfs::{QuicfsRequest, QuicfsResponse, ReaddirRequest};
use quicfs::server::directory::{CreateOutcome, DirectoryImpl, ErrorCode, LookupOutcome, MkdirOutcome};
use quicfs::server::file::FileImpl;
use quicfs::server::node::NodeImpl;
use quicfs::server::paths::path_join;
use quicfs::server::QuicfsServerHandler;
use quicfs::swarm::PeerRouter;

#[test]
fn readdir_answers_an_empty_complete_listing() {
    let handler = QuicfsServerHandler::new();
    let req = QuicfsRequest::Readdir(ReaddirRequest { handle_id: b"1".to_vec() });
    match handler.handle_request(req) {
        Ok(QuicfsResponse::Readdir(resp)) => {
            assert!(resp.attributes.is_empty());
            assert!(resp.eof);
            assert_eq!(resp.error, "");
            assert_eq!(resp.offset, 0);
            assert_eq!(resp.size, 0);
        },
        _ => panic!("expected a listing"),
    }
}

#[test]
fn path_joining() {
    assert_eq!(path_join("/srv", "a"), "/srv/a");
    assert_eq!(path_join("/srv/", "a"), "/srv/a");
    assert_eq!(path_join("", "a"), "a");
    assert_eq!(path_join("/srv", "/etc"), "/etc");
    assert_eq!(path_join("/srv", ""), "/srv/");
}

#[test]
fn directory_lookup() {
    let dir = DirectoryImpl::new("/srv/share");
    assert_eq!(dir.path(), "/srv/share");
    match dir.lookup("notes.txt", true) {
        LookupOutcome::Found(p) => assert_eq!(p, "/srv/share/notes.txt"),
        LookupOutcome::Missing(_) => panic!("entry lost"),
    }
    match dir.lookup("gone", false) {
        LookupOutcome::Missing(e) => {
            assert_eq!(e.code, ErrorCode::NoEntity);
            assert_eq!(e.message, "gone does not exist");
        },
        LookupOutcome::Found(_) => panic!("missing entry found"),
    }
}

#[test]
fn directory_create() {
    let dir = DirectoryImpl::new("/srv");
    match dir.create("f", true, true) {
        CreateOutcome::OpenUnchecked(p) => assert_eq!(p, "/srv/f"),
        _ => panic!("unchecked create looked"),
    }
    match dir.create("f", false, false) {
        CreateOutcome::CreateFile(p) => assert_eq!(p, "/srv/f"),
        _ => panic!("create refused"),
    }
    match dir.create("f", false, true) {
        CreateOutcome::Exists(e) => {
            assert_eq!(e.code, ErrorCode::Exists);
            assert_eq!(e.message, "f exists");
        },
        _ => panic!("existing file overwritten"),
    }
}

#[test]
fn directory_mkdir() {
    let dir = DirectoryImpl::new("/srv");
    match dir.mkdir("d", false) {
        MkdirOutcome::CreateDir(p) => assert_eq!(p, "/srv/d"),
        MkdirOutcome::Exists(_) => panic!("mkdir refused"),
    }
    match dir.mkdir("d", true) {
        MkdirOutcome::Exists(e) => assert_eq!(e.message, "d exists"),
        MkdirOutcome::CreateDir(_) => panic!("existing directory made again"),
    }
}

#[test]
fn file_read_end() {
    let f = FileImpl::new("/srv/f");
    assert_eq!(f.path(), "/srv/f");
    assert!(FileImpl::read_reached_end(3, 10));
    assert!(!FileImpl::read_reached_end(10, 10));
    assert!(FileImpl::read_reached_end(0, 1));
    let e = FileImpl::open_failed("No such file".to_string());
    assert_eq!(e.code, ErrorCode::Unknown);
    assert_eq!(e.message, "No such file");
}

#[test]
fn node_link_goes_beside_the_node() {
    assert_eq!(NodeImpl::new("/srv/dir/file").link_path("alias"), Some("/srv/dir/alias".to_string()));
    assert_eq!(NodeImpl::new("file").link_path("alias"), Some("alias".to_string()));
    assert_eq!(NodeImpl::new("/").link_path("alias"), None);
}

#[test]
fn command_parsing() {
    assert_eq!(CommandLineProcessor::<()>::parse_command("ls"), ClientCommand::List);
    assert_eq!(CommandLineProcessor::<()>::parse_command("ls -la /tmp"), ClientCommand::List);
    assert_eq!(CommandLineProcessor::<()>::parse_command("lsx"), ClientCommand::Nothing);
    assert_eq!(CommandLineProcessor::<()>::parse_command(" ls"), ClientCommand::Nothing);
    assert_eq!(CommandLineProcessor::<()>::parse_command(""), ClientCommand::Nothing);
    let p = CommandLineProcessor::new(42u32);
    assert_eq!(*p.client(), 42);
}

#[test]
fn codec_checks() {
    assert_eq!(QuicfsProtocol().protocol_name().as_bytes(), b"/quicfs/1.0.0");
    assert_eq!(MAX_MESSAGE_SIZE, 1_048_576);
}

#[test]
fn general_error_message() {
    let e = GeneralError::from_message("Timed out waiting for events");
    assert_eq!(e.message, "Timed out waiting for events");
    assert_eq!(e.describe(), "Timed out waiting for events");
}

#[test]
fn requests_go_to_first_peer() {
    let mut r = PeerRouter::new();
    assert_eq!(r.route(), None);
    r.on_connection_established(vec![1, 2]);
    assert_eq!(r.route(), Some(vec![1, 2]));
    r.on_connection_established(vec![3]);
    assert_eq!(r.route(), Some(vec![1, 2]));
}
