//! Router identities and the codec that turns configured strings into them.

use vstd::prelude::*;

verus! {

/// Length in bytes of a router identity.
pub const ROUTER_ID_LEN: usize = 32;

/// Fixed-length binary identity of a router; equality is by raw bytes.
#[derive(Clone, Copy, Debug, PartialEq, Eq, Hash)]
pub struct RouterId {
    pub bytes: [u8; 32],
}

impl View for RouterId {
    type V = Seq<u8>;

    open spec fn view(&self) -> Seq<u8> {
        self.bytes@
    }
}

impl RouterId {
    /// Build an identity from its raw bytes.
    pub fn new(bytes: [u8; 32]) -> (r: Self)
        ensures
            r@ == bytes@,
    {
        RouterId { bytes }
    }

    /// The raw bytes of the identity.
    pub fn as_bytes(&self) -> (r: &[u8; 32])
        ensures
            r@ == self@,
    {
        &self.bytes
    }
}

/// What the I2P base64 decoder makes of a string: the decoded bytes, or
/// `None` where the string is no valid encoding.
pub uninterp spec fn i2p_base64_decoded(s: Seq<char>) -> Option<Seq<u8>>;

/// Relies on `data_encoding::Encoding::decode` for the I2P base64 alphabet
/// (`A-Z a-z 0-9 - ~`, padded with `=`): the result is a function of the
/// input alone, and `None` stands for every decoding error.
#[verifier::external_body]
pub(crate) fn base64_decode(s: &str) -> (r: Option<Vec<u8>>)
    ensures
        match r {
            Some(v) => i2p_base64_decoded(s@) == Some(v@),
            None => i2p_base64_decoded(s@) is None,
        },
{
    let mut spec = data_encoding::Specification::new();
    spec.symbols.push_str("ABCDEFGHIJKLMNOPQRSTUVWXYZabcdefghijklmnopqrstuvwxyz0123456789-~");
    spec.padding = Some('=');
    match spec.encoding() {
        Ok(encoding) => encoding.decode(s.as_bytes()).ok(),
        Err(_) => None,
    }
}

/// The identity that a configured relay string stands for: its decoding,
/// where that succeeds and is exactly one identity long.
pub open spec fn relay_id_of(s: Seq<char>) -> Option<Seq<u8>> {
    match i2p_base64_decoded(s) {
        Some(b) => if b.len() == ROUTER_ID_LEN { Some(b) } else { None },
        None => None,
    }
}

/// Decode one configured relay string into an identity; malformed strings
/// and decodings of another length give `None`.
pub fn decode_router_id(s: &str) -> (r: Option<RouterId>)
    ensures
        match r {
            Some(id) => relay_id_of(s@) == Some(id@),
            None => relay_id_of(s@) is None,
        },
{
    match base64_decode(s) {
        Some(bytes) => {
            if bytes.len() != ROUTER_ID_LEN {
                return None;
            }
            let mut id: [u8; 32] = [0u8; 32];
            let mut i: usize = 0;
            while i < ROUTER_ID_LEN
                invariant
                    bytes@.len() == ROUTER_ID_LEN,
                    i <= ROUTER_ID_LEN,
                    forall|j: int| 0 <= j < i ==> id@[j] == bytes@[j],
                decreases ROUTER_ID_LEN - i,
            {
                id[i] = bytes[i];
                i = i + 1;
            }
            assert(id@ =~= bytes@);
            Some(RouterId::new(id))
        },
        None => None,
    }
}

} // verus!
