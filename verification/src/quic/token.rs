use vstd::prelude::*;

use crate::bytes::{append_bytes, bytes_from, bytes_match_at};

verus! {

/// The IP address of a peer, by its octets.
#[derive(Clone, Copy, Debug)]
pub enum IpAddress {
    V4([u8; 4]),
    V6([u8; 16]),
}

/// The octets of an address, in network order.
pub open spec fn ip_octets(a: IpAddress) -> Seq<u8> {
    match a {
        IpAddress::V4(o) => o@,
        IpAddress::V6(o) => o@,
    }
}

/// The static text every retry token starts with.
pub open spec fn token_marker() -> Seq<u8> {
    seq![0x71u8, 0x75u8, 0x69u8, 0x63u8, 0x68u8, 0x65u8]
}

/// A retry token: the marker `quiche`, the client's address octets and the
/// first destination connection ID.
pub open spec fn spec_mint_token(dcid: Seq<u8>, addr: IpAddress) -> Seq<u8> {
    token_marker() + ip_octets(addr) + dcid
}

/// The first destination connection ID that `token` carries for a client
/// at `addr`, or `None` when the token lacks the marker or was made for
/// another address.
pub open spec fn spec_validate_token(addr: IpAddress, token: Seq<u8>) -> Option<Seq<u8>> {
    let a = ip_octets(addr);
    if token.len() < 6 || token.subrange(0, 6) != token_marker() {
        None
    } else {
        let rest = token.subrange(6, token.len() as int);
        if rest.len() < a.len() || rest.subrange(0, a.len() as int) != a {
            None
        } else {
            Some(rest.subrange(a.len() as int, rest.len() as int))
        }
    }
}

impl IpAddress {
    /// The octets of this address, in network order.
    pub fn octets(&self) -> (r: Vec<u8>)
        ensures
            r@ == ip_octets(*self),
    {
        let mut r: Vec<u8> = Vec::new();
        match self {
            IpAddress::V4(o) => {
                let mut i: usize = 0;
                while i < 4
                    invariant
                        i <= 4,
                        r@ == o@.subrange(0, i as int),
                    decreases 4 - i,
                {
                    r.push(o[i]);
                    i = i + 1;
                    assert(r@ =~= o@.subrange(0, i as int));
                }
                assert(o@.subrange(0, 4) =~= o@);
            },
            IpAddress::V6(o) => {
                let mut i: usize = 0;
                while i < 16
                    invariant
                        i <= 16,
                        r@ == o@.subrange(0, i as int),
                    decreases 16 - i,
                {
                    r.push(o[i]);
                    i = i + 1;
                    assert(r@ =~= o@.subrange(0, i as int));
                }
                assert(o@.subrange(0, 16) =~= o@);
            },
        }
        r
    }
}

/// Generates a stateless retry token.
///
/// The token holds the static string `"quiche"` followed by the IP address
/// of the client and by the first destination connection ID generated by
/// the client. It is not authenticated in any way.
pub fn mint_token(dcid: &[u8], src: &IpAddress) -> (token: Vec<u8>)
    ensures
        token@ == spec_mint_token(dcid@, *src),
{
    let mut token: Vec<u8> = Vec::new();
    let marker: [u8; 6] = [0x71u8, 0x75u8, 0x69u8, 0x63u8, 0x68u8, 0x65u8];
    append_bytes(&mut token, marker.as_slice());
    assert(marker@ =~= token_marker());
    let addr = src.octets();
    append_bytes(&mut token, addr.as_slice());
    append_bytes(&mut token, dcid);
    token
}

/// Validates a stateless retry token: it must start with `"quiche"` and
/// carry the client's IP address. Gives back the first destination
/// connection ID that follows them.
pub fn validate_token(src: &IpAddress, token: &[u8]) -> (odcid: Option<Vec<u8>>)
    ensures
        odcid matches Some(o) ==> spec_validate_token(*src, token@) == Some(o@),
        odcid is None ==> spec_validate_token(*src, token@) is None,
{
    if token.len() < 6 {
        return None;
    }
    let marker: [u8; 6] = [0x71u8, 0x75u8, 0x69u8, 0x63u8, 0x68u8, 0x65u8];
    assert(marker@ =~= token_marker());
    if !bytes_match_at(token, 0, marker.as_slice()) {
        return None;
    }
    let addr = src.octets();
    let ghost rest = token@.subrange(6, token@.len() as int);
    if token.len() - 6 < addr.len() {
        return None;
    }
    if !bytes_match_at(token, 6, addr.as_slice()) {
        assert(rest.subrange(0, addr@.len() as int) =~= token@.subrange(6, 6 + addr@.len() as int));
        return None;
    }
    assert(rest.subrange(0, addr@.len() as int) =~= token@.subrange(6, 6 + addr@.len() as int));
    let odcid = bytes_from(token, 6 + addr.len());
    assert(odcid@ =~= rest.subrange(addr@.len() as int, rest.len() as int));
    Some(odcid)
}

/// A token minted for a client validates for that client and gives back the
/// connection ID it was minted with.
pub proof fn lemma_token_roundtrip(dcid: Seq<u8>, addr: IpAddress)
    ensures
        spec_validate_token(addr, spec_mint_token(dcid, addr)) == Some(dcid),
{
    let t = spec_mint_token(dcid, addr);
    let a = ip_octets(addr);
    assert(t.subrange(0, 6) =~= token_marker());
    let rest = t.subrange(6, t.len() as int);
    assert(rest =~= a + dcid);
    assert(rest.subrange(0, a.len() as int) =~= a);
    assert(rest.subrange(a.len() as int, rest.len() as int) =~= dcid);
}

/// A token that validates for a client is exactly the token minted for that
/// client with the connection ID it gives back.
pub proof fn lemma_token_validate_inverse(addr: IpAddress, token: Seq<u8>)
    ensures
        spec_validate_token(addr, token) matches Some(odcid) ==> token == spec_mint_token(
            odcid,
            addr,
        ),
{
    if let Some(odcid) = spec_validate_token(addr, token) {
        let a = ip_octets(addr);
        let rest = token.subrange(6, token.len() as int);
        assert(rest =~= rest.subrange(0, a.len() as int) + rest.subrange(
            a.len() as int,
            rest.len() as int,
        ));
        assert(token =~= token.subrange(0, 6) + rest);
        assert(token =~= spec_mint_token(odcid, addr));
    }
}

/// A token is bound to the address it was minted for: it does not validate
/// for another address of the same family.
pub proof fn lemma_token_bound_to_address(dcid: Seq<u8>, minted_for: IpAddress, other: IpAddress)
    requires
        ip_octets(minted_for).len() == ip_octets(other).len(),
        ip_octets(minted_for) != ip_octets(other),
    ensures
        spec_validate_token(other, spec_mint_token(dcid, minted_for)) is None,
{
    let t = spec_mint_token(dcid, minted_for);
    let a = ip_octets(minted_for);
    assert(t.subrange(0, 6) =~= token_marker());
    let rest = t.subrange(6, t.len() as int);
    assert(rest =~= a + dcid);
    assert(rest.subrange(0, a.len() as int) =~= a);
}

/// A token holds the marker, every octet of the client's address in network
/// order (4 for IPv4, 16 for IPv6), then the connection ID.
pub proof fn lemma_token_layout(dcid: Seq<u8>, addr: IpAddress)
    ensures
        spec_mint_token(dcid, addr).subrange(0, 6) == seq![0x71u8, 0x75u8, 0x69u8, 0x63u8, 0x68u8, 0x65u8],
        addr matches IpAddress::V4(o) ==> spec_mint_token(dcid, addr).len() == 6 + 4 + dcid.len()
            && spec_mint_token(dcid, addr).subrange(6, 10) == o@,
        addr matches IpAddress::V6(o) ==> spec_mint_token(dcid, addr).len() == 6 + 16 + dcid.len()
            && spec_mint_token(dcid, addr).subrange(6, 22) == o@,
        spec_mint_token(dcid, addr).subrange(
            spec_mint_token(dcid, addr).len() - dcid.len(),
            spec_mint_token(dcid, addr).len() as int,
        ) == dcid,
{
    let t = spec_mint_token(dcid, addr);
    let a = ip_octets(addr);
    assert(t.subrange(0, 6) =~= token_marker());
    assert(t.subrange(6, 6 + a.len() as int) =~= a);
    assert(t.subrange(t.len() - dcid.len(), t.len() as int) =~= dcid);
}

/// A token minted for one IPv6 address does not validate for any other
/// IPv6 address, whichever of the 16 octets they differ in.
pub proof fn lemma_token_bound_to_v6_address(dcid: Seq<u8>, minted_for: [u8; 16], other: [u8; 16])
    requires
        minted_for@ != other@,
    ensures
        spec_validate_token(IpAddress::V6(other), spec_mint_token(dcid, IpAddress::V6(minted_for)))
            is None,
{
    let t = spec_mint_token(dcid, IpAddress::V6(minted_for));
    assert(t.subrange(0, 6) =~= token_marker());
    let rest = t.subrange(6, t.len() as int);
    assert(rest.subrange(0, 16) =~= minted_for@);
    assert(ip_octets(IpAddress::V6(other)).len() == 16);
    assert(ip_octets(IpAddress::V6(other)) == other@);
}

/// A token minted for one IPv4 address does not validate for any other
/// IPv4 address.
pub proof fn lemma_token_bound_to_v4_address(dcid: Seq<u8>, minted_for: [u8; 4], other: [u8; 4])
    requires
        minted_for@ != other@,
    ensures
        spec_validate_token(IpAddress::V4(other), spec_mint_token(dcid, IpAddress::V4(minted_for)))
            is None,
{
    let t = spec_mint_token(dcid, IpAddress::V4(minted_for));
    assert(t.subrange(0, 6) =~= token_marker());
    let rest = t.subrange(6, t.len() as int);
    assert(rest.subrange(0, 4) =~= minted_for@);
    assert(ip_octets(IpAddress::V4(other)) == other@);
}

} // verus!
