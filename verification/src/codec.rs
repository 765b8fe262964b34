use vstd::prelude::*;

use crate::frame::{
    lemma_frame_read_back, read_state, spec_finish, spec_frame, FrameError, FrameReader,
    ReadState,
};

verus! {

/// The largest message payload a peer accepts, in bytes.
pub const MAX_MESSAGE_SIZE: usize = 1_048_576;

/// The quicfs request/response protocol.
pub struct QuicfsProtocol();

/// Reads and writes quicfs requests and responses on a stream.
pub struct QuicfsCodec();

/// How reading a message fails.
#[derive(Clone, Copy, Debug, PartialEq, Eq, Structural)]
pub enum CodecError {
    /// The stream ended inside the message, or the message was empty.
    UnexpectedEof,
    /// The frame around the message is malformed or too long.
    InvalidData,
}

/// The payload a reader in state `s` gives at the end of the stream, or why
/// it gives none: an empty payload is an unexpected end of the stream.
pub open spec fn spec_received(s: ReadState) -> Result<Seq<u8>, CodecError> {
    match spec_finish(s) {
        Ok(d) => if d.len() == 0 {
            Err(CodecError::UnexpectedEof)
        } else {
            Ok(d)
        },
        Err(FrameError::UnexpectedEof) => Err(CodecError::UnexpectedEof),
        Err(FrameError::InvalidData) => Err(CodecError::InvalidData),
    }
}

impl QuicfsProtocol {
    /// The name the protocol is negotiated under.
    pub fn protocol_name(&self) -> (r: &'static str)
        ensures
            r@ == "/quicfs/1.0.0"@,
    {
        "/quicfs/1.0.0"
    }

    /// A reader for the frame of one message.
    pub fn frame_reader() -> (r: FrameReader)
        ensures
            r.wf(),
            r.state() == ReadState::Length(Seq::empty()),
            r.max_size() == MAX_MESSAGE_SIZE,
    {
        FrameReader::new(MAX_MESSAGE_SIZE)
    }

    /// The payload of a message once the stream has ended or its frame is
    /// read; an empty payload is refused as an unexpected end.
    pub fn received_payload(reader: FrameReader) -> (r: Result<Vec<u8>, CodecError>)
        ensures
            match r {
                Ok(d) => spec_received(reader.state()) == Ok::<Seq<u8>, CodecError>(d@),
                Err(e) => spec_received(reader.state()) == Err::<Seq<u8>, CodecError>(e),
            },
    {
        match reader.finish() {
            Ok(d) => if d.len() == 0 {
                Err(CodecError::UnexpectedEof)
            } else {
                Ok(d)
            },
            Err(FrameError::UnexpectedEof) => Err(CodecError::UnexpectedEof),
            Err(FrameError::InvalidData) => Err(CodecError::InvalidData),
        }
    }
}

/// What is written for a message is read back: the payload of a frame sent
/// whole is received unchanged, whenever it is not empty and within the
/// size limit.
pub proof fn lemma_sent_payload_received(data: Seq<u8>)
    requires
        0 < data.len() <= MAX_MESSAGE_SIZE,
    ensures
        spec_received(read_state(spec_frame(data), MAX_MESSAGE_SIZE as nat)) == Ok::<
            Seq<u8>,
            CodecError,
        >(data),
{
    lemma_frame_read_back(data, MAX_MESSAGE_SIZE as nat);
}

} // verus!
