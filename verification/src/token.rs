//! The claims a client's signalling token carries, and the identifiers
//! read from them.
use vstd::prelude::*;
use vstd::utf8::*;
use crate::numparse::{IntErrorKind, parse_u64, parse_unsigned};

verus! {

/// The UTF-8 bytes of a string.
pub open spec fn text_bytes(s: &String) -> Seq<u8> {
    encode_utf8(s@)
}

/// What a session's bytes `s` read as an identifier: `s.parse::<u64>()`.
pub open spec fn id_of(s: &String) -> Result<nat, IntErrorKind> {
    parse_unsigned(text_bytes(s), u64::MAX as nat)
}

/// Claims of a signed offer token: the channel (session) and the user
/// (endpoint) as decimal strings, and the issue and expiry times.
#[allow(non_snake_case)]
pub struct TokenOffer {
    pub channelSn: String,
    pub userSn: String,
    pub iat: i64,
    pub exp: i64,
}

impl TokenOffer {
    /// The session identifier: the channel serial read as a `u64`.
    pub fn session_id(&self) -> (r: Result<u64, IntErrorKind>)
        ensures
            match r {
                Ok(v) => id_of(&self.channelSn) == Ok::<nat, IntErrorKind>(v as nat),
                Err(e) => id_of(&self.channelSn) == Err::<nat, IntErrorKind>(e),
            },
    {
        parse_u64(self.channelSn.as_str())
    }

    /// The endpoint identifier: the user serial read as a `u64`.
    pub fn endpoint_id(&self) -> (r: Result<u64, IntErrorKind>)
        ensures
            match r {
                Ok(v) => id_of(&self.userSn) == Ok::<nat, IntErrorKind>(v as nat),
                Err(e) => id_of(&self.userSn) == Err::<nat, IntErrorKind>(e),
            },
    {
        parse_u64(self.userSn.as_str())
    }
}

} // verus!
