use quicfs::codec::{CodecError, QuicfsProtocol, MAX_MESSAGE_SIZE};
use quicfs::frame::{encode_varint, frame, FrameError, FrameReader};

#[test]
fn varint_encodings() {
    assert_eq!(encode_varint(0), vec![0x00]);
    assert_eq!(encode_varint(1), vec![0x01]);
    assert_eq!(encode_varint(127), vec![0x7f]);
    assert_eq!(encode_varint(128), vec![0x80, 0x01]);
    assert_eq!(encode_varint(300), vec![0xac, 0x02]);
    assert_eq!(encode_varint(1_048_576), vec![0x80, 0x80, 0x40]);
    assert_eq!(encode_varint(u64::MAX), vec![0xff, 0xff, 0xff, 0xff, 0xff, 0xff, 0xff, 0xff, 0xff, 0x01]);
}

#[test]
fn frame_is_length_then_payload() {
    assert_eq!(frame(b"abc"), vec![3, b'a', b'b', b'c']);
    assert_eq!(frame(b""), vec![0]);
    let big = vec![7u8; 200];
    let f = frame(&big);
    assert_eq!(&f[..2], &[0xc8, 0x01]);
    assert_eq!(&f[2..], &big[..]);
}

#[test]
fn frame_reads_back() {
    for data in [b"x".to_vec(), b"hello".to_vec(), vec![0u8; 300]] {
        let f = frame(&data);
        let mut reader = FrameReader::new(MAX_MESSAGE_SIZE);
        assert!(!reader.is_finished());
        let used = reader.push_bytes(&f);
        assert_eq!(used, f.len());
        assert!(reader.is_finished());
        assert_eq!(reader.finish(), Ok(data));
    }
}

#[test]
fn reader_stops_at_end_of_frame() {
    let mut stream = frame(b"ab");
    stream.extend_from_slice(&frame(b"cd"));
    let mut reader = FrameReader::new(16);
    assert_eq!(reader.push_bytes(&stream), 3);
    assert_eq!(reader.finish(), Ok(b"ab".to_vec()));
}

#[test]
fn reader_asks_for_what_it_needs() {
    let mut reader = FrameReader::new(16);
    assert_eq!(reader.wanted(), 1);
    reader.push(5);
    assert_eq!(reader.wanted(), 5);
    reader.push_bytes(b"ab");
    assert_eq!(reader.wanted(), 3);
    reader.push_bytes(b"cde");
    assert_eq!(reader.wanted(), 0);
    assert!(reader.is_finished());
}

#[test]
fn oversized_frame_is_refused_after_its_prefix() {
    let mut reader = FrameReader::new(MAX_MESSAGE_SIZE);
    let used = reader.push_bytes(&[0x81, 0x80, 0x40, 1, 2, 3]);
    assert_eq!(used, 3);
    assert!(reader.is_finished());
    assert_eq!(reader.finish(), Err(FrameError::InvalidData));
    let mut reader = FrameReader::new(4);
    reader.push(5);
    assert_eq!(reader.finish(), Err(FrameError::InvalidData));
}

#[test]
fn malformed_prefixes_are_refused() {
    let mut reader = FrameReader::new(MAX_MESSAGE_SIZE);
    assert_eq!(reader.push_bytes(&[0x80, 0x00, 1]), 2);
    assert_eq!(reader.finish(), Err(FrameError::InvalidData));
    let mut reader = FrameReader::new(MAX_MESSAGE_SIZE);
    assert_eq!(reader.push_bytes(&[0x80; 12]), 10);
    assert_eq!(reader.finish(), Err(FrameError::InvalidData));
}

#[test]
fn stream_ends() {
    assert_eq!(FrameReader::new(8).finish(), Ok(Vec::new()));
    let mut reader = FrameReader::new(8);
    reader.push(0x80);
    assert_eq!(reader.finish(), Err(FrameError::UnexpectedEof));
    let mut reader = FrameReader::new(8);
    reader.push_bytes(&[4, 1, 2]);
    assert_eq!(reader.finish(), Err(FrameError::UnexpectedEof));
    let mut reader = FrameReader::new(8);
    reader.push(0);
    assert!(reader.is_finished());
    assert_eq!(reader.finish(), Ok(Vec::new()));
}

#[test]
fn received_payloads() {
    let reader = QuicfsProtocol::frame_reader();
    assert_eq!(QuicfsProtocol::received_payload(reader), Err(CodecError::UnexpectedEof));
    let mut reader = QuicfsProtocol::frame_reader();
    reader.push(0);
    assert_eq!(QuicfsProtocol::received_payload(reader), Err(CodecError::UnexpectedEof));
    let mut reader = QuicfsProtocol::frame_reader();
    reader.push_bytes(&frame(b"payload"));
    assert_eq!(QuicfsProtocol::received_payload(reader), Ok(b"payload".to_vec()));
    let mut reader = QuicfsProtocol::frame_reader();
    reader.push_bytes(&[0xff, 0xff, 0x7f]);
    assert_eq!(QuicfsProtocol::received_payload(reader), Err(CodecError::InvalidData));
}
