use vstd::prelude::*;
use vstd::string::*;

use crate::text::str_eq;

verus! {

/// Which way an RPC envelope travels.
#[derive(Clone, Copy, Debug, PartialEq, Eq, Structural)]
pub enum RpcDirection {
    Unspecified,
    Request,
    Response,
}

/// The envelope every quicfs message travels in: the method it belongs to,
/// the encoded message body, and the direction tag.
#[derive(Clone, Debug)]
pub struct RpcData {
    pub method: String,
    pub body: Vec<u8>,
    pub direction: i32,
}

/// The field name that the wire schema gives each direction.
pub open spec fn rpc_direction_name(d: RpcDirection) -> Seq<char> {
    match d {
        RpcDirection::Unspecified => "RPC_DIRECTION_UNSPECIFIED"@,
        RpcDirection::Request => "RPC_DIRECTION_REQUEST"@,
        RpcDirection::Response => "RPC_DIRECTION_RESPONSE"@,
    }
}

/// The direction whose schema field name is `s`, if any.
pub open spec fn rpc_direction_from_name(s: Seq<char>) -> Option<RpcDirection> {
    if s == "RPC_DIRECTION_UNSPECIFIED"@ {
        Some(RpcDirection::Unspecified)
    } else if s == "RPC_DIRECTION_REQUEST"@ {
        Some(RpcDirection::Request)
    } else if s == "RPC_DIRECTION_RESPONSE"@ {
        Some(RpcDirection::Response)
    } else {
        None
    }
}

impl RpcDirection {
    /// String value of the enum field names used in the schema definition.
    pub fn as_str_name(&self) -> (r: &'static str)
        ensures
            r@ == rpc_direction_name(*self),
    {
        match self {
            RpcDirection::Unspecified => "RPC_DIRECTION_UNSPECIFIED",
            RpcDirection::Request => "RPC_DIRECTION_REQUEST",
            RpcDirection::Response => "RPC_DIRECTION_RESPONSE",
        }
    }

    /// Creates an enum from field names used in the schema definition.
    pub fn from_str_name(value: &str) -> (r: Option<RpcDirection>)
        ensures
            r == rpc_direction_from_name(value@),
    {
        if str_eq(value, "RPC_DIRECTION_UNSPECIFIED") {
            Some(RpcDirection::Unspecified)
        } else if str_eq(value, "RPC_DIRECTION_REQUEST") {
            Some(RpcDirection::Request)
        } else if str_eq(value, "RPC_DIRECTION_RESPONSE") {
            Some(RpcDirection::Response)
        } else {
            None
        }
    }
}

/// Reading back the name of a direction gives that direction.
pub proof fn lemma_rpc_direction_name_roundtrip(d: RpcDirection)
    ensures
        rpc_direction_from_name(rpc_direction_name(d)) == Some(d),
{
    reveal_strlit("RPC_DIRECTION_UNSPECIFIED");
    reveal_strlit("RPC_DIRECTION_REQUEST");
    reveal_strlit("RPC_DIRECTION_RESPONSE");
    assert("RPC_DIRECTION_UNSPECIFIED"@.len() == 25);
    assert("RPC_DIRECTION_REQUEST"@.len() == 21);
    assert("RPC_DIRECTION_RESPONSE"@.len() == 22);
}

/// A name that parses to a direction is exactly that direction's name.
pub proof fn lemma_rpc_direction_parse_inverse(s: Seq<char>)
    ensures
        rpc_direction_from_name(s) matches Some(d) ==> rpc_direction_name(d) == s,
{
}

} // verus!
