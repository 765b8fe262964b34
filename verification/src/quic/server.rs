use vstd::prelude::*;

use crate::error::GeneralError;
use crate::quic::token::{mint_token, spec_mint_token, spec_validate_token, validate_token, IpAddress};

verus! {

/// The longest connection ID that QUIC allows.
pub const MAX_CONN_ID_LEN: usize = 20;

/// The kinds of QUIC packet header.
#[derive(Clone, Copy, Debug, PartialEq, Eq, Structural)]
pub enum PacketType {
    Initial,
    Retry,
    Handshake,
    ZeroRTT,
    VersionNegotiation,
    Short,
}

/// What to do with a packet from a client that has no connection yet.
pub enum NewClientAction {
    /// Drop the packet and report this error.
    Reject(GeneralError),
    /// Answer with a version negotiation packet.
    NegotiateVersion,
    /// Answer with a stateless retry carrying this token.
    Retry { token: Vec<u8> },
    /// Accept the connection; `odcid` is the first destination
    /// connection ID that the client's token carried.
    Accept { odcid: Vec<u8> },
}

/// The QUIC versions the server speaks: version 1 and drafts 27 to 29.
pub open spec fn spec_version_is_supported(version: u32) -> bool {
    version == 0x0000_0001u32 || version == 0xff00_001bu32 || version == 0xff00_001cu32
        || version == 0xff00_001du32
}

/// Whether the server speaks QUIC version `version`.
pub fn version_is_supported(version: u32) -> (r: bool)
    ensures
        r == spec_version_is_supported(version),
{
    version == 0x0000_0001u32 || version == 0xff00_001bu32 || version == 0xff00_001cu32
        || version == 0xff00_001du32
}

/// The kinds of answer to a new client's packet, by plain values.
pub enum NewClientOutcome {
    NotInitial,
    NegotiateVersion,
    Retry(Seq<u8>),
    InvalidToken,
    Accept(Seq<u8>),
}

/// How the server answers the first packet of a client it does not know:
/// only an Initial packet is taken; an unknown version is negotiated; a
/// packet without a token is sent a retry token; a token that does not
/// validate for the client's address is refused; otherwise the connection
/// is accepted with the connection ID the token carries.
pub open spec fn spec_new_client(
    ty: PacketType,
    version: u32,
    token: Seq<u8>,
    dcid: Seq<u8>,
    from: IpAddress,
) -> NewClientOutcome {
    if ty != PacketType::Initial {
        NewClientOutcome::NotInitial
    } else if !spec_version_is_supported(version) {
        NewClientOutcome::NegotiateVersion
    } else if token.len() == 0 {
        NewClientOutcome::Retry(spec_mint_token(dcid, from))
    } else {
        match spec_validate_token(from, token) {
            None => NewClientOutcome::InvalidToken,
            Some(odcid) => NewClientOutcome::Accept(odcid),
        }
    }
}

/// Decides how to answer the first packet of a client the server does not
/// know yet. `token` is the packet's address validation token, which every
/// Initial packet carries.
pub fn new_client_action(
    ty: PacketType,
    version: u32,
    token: &Option<Vec<u8>>,
    dcid: &[u8],
    from: &IpAddress,
) -> (r: NewClientAction)
    requires
        ty == PacketType::Initial && spec_version_is_supported(version) ==> token is Some,
    ensures
        match r {
            NewClientAction::Reject(e) => {
                ||| spec_new_client(ty, version, token->0@, dcid@, *from)
                    is NotInitial && e.message@ == "Packet is not Initial"@
                ||| spec_new_client(ty, version, token->0@, dcid@, *from)
                    is InvalidToken && e.message@ == "Invalid address validation token"@
            },
            NewClientAction::NegotiateVersion => spec_new_client(
                ty,
                version,
                token->0@,
                dcid@,
                *from,
            ) is NegotiateVersion,
            NewClientAction::Retry { token: t } => spec_new_client(
                ty,
                version,
                token->0@,
                dcid@,
                *from,
            ) == NewClientOutcome::Retry(t@),
            NewClientAction::Accept { odcid } => spec_new_client(
                ty,
                version,
                token->0@,
                dcid@,
                *from,
            ) == NewClientOutcome::Accept(odcid@),
        },
{
    if ty != PacketType::Initial {
        return NewClientAction::Reject(GeneralError::from_message("Packet is not Initial"));
    }
    if !version_is_supported(version) {
        return NewClientAction::NegotiateVersion;
    }
    let token = match token {
        Some(t) => t,
        // Excluded by the precondition: an Initial packet of a known
        // version always carries a token.
        None => {
            return NewClientAction::NegotiateVersion;
        },
    };
    if token.len() == 0 {
        return NewClientAction::Retry { token: mint_token(dcid, from) };
    }
    match validate_token(from, token.as_slice()) {
        None => NewClientAction::Reject(
            GeneralError::from_message("Invalid address validation token"),
        ),
        Some(odcid) => NewClientAction::Accept { odcid },
    }
}

/// The HMAC-SHA256 tag of `data` under the key whose bytes are `key`
/// (RFC 2104), as ring computes it.
pub uninterp spec fn hmac_sha256_tag(key: Seq<u8>, data: Seq<u8>) -> Seq<u8>;

/// Calls `ring::hmac::sign` with a `ring::hmac::Key` made by
/// `ring::hmac::Key::new(HMAC_SHA256, key)` from the key's bytes: the tag is
/// the HMAC-SHA256 of `data` under that key, a function of the two byte
/// strings alone, and is as long as a SHA-256 digest, 32 bytes.
#[verifier::external_body]
fn hmac_sha256(key: &[u8], data: &[u8]) -> (tag: Vec<u8>)
    ensures
        tag@ == hmac_sha256_tag(key@, data@),
        tag@.len() == 32,
{
    let key = ring::hmac::Key::new(ring::hmac::HMAC_SHA256, key);
    ring::hmac::sign(&key, data).as_ref().to_vec()
}

/// The connection ID the server gives a client it sends a retry: the first
/// `MAX_CONN_ID_LEN` bytes of the HMAC-SHA256 of the client's destination
/// connection ID under the server's key, given by its bytes.
pub fn retry_source_id(key: &[u8], dcid: &[u8]) -> (scid: Vec<u8>)
    ensures
        scid@ == hmac_sha256_tag(key@, dcid@).subrange(0, MAX_CONN_ID_LEN as int),
{
    let tag = hmac_sha256(key, dcid);
    let mut scid: Vec<u8> = Vec::new();
    let mut i: usize = 0;
    while i < MAX_CONN_ID_LEN
        invariant
            i <= MAX_CONN_ID_LEN,
            tag@ == hmac_sha256_tag(key@, dcid@),
            tag@.len() >= MAX_CONN_ID_LEN,
            scid@ == tag@.subrange(0, i as int),
        decreases MAX_CONN_ID_LEN - i,
    {
        scid.push(tag[i]);
        i = i + 1;
        assert(scid@ =~= tag@.subrange(0, i as int));
    }
    scid
}

} // verus!
