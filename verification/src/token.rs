use vstd::prelude::*;
use sha2::Digest;

verus! {

/// Width of every room token: the size of a SHA-512 digest.
pub const ROOM_TOKEN_LEN: usize = 64;

/// The digest a room name maps to. Stating the digest algorithm itself is out
/// of scope here; the contracts only rely on the result being a function of
/// the input bytes with a fixed width.
pub uninterp spec fn sha512_digest(data: Seq<u8>) -> Seq<u8>;

/// Relies on sha2::Sha512::digest: a 64-byte digest that depends on the input
/// bytes alone.
#[verifier::external_body]
fn sha512(data: &Vec<u8>) -> (digest: Vec<u8>)
    ensures
        digest@ == sha512_digest(data@),
        digest@.len() == 64,
{
    sha2::Sha512::digest(data.as_slice()).to_vec()
}

/// A room's fixed-width key: exactly 64 opaque bytes, compared byte-exactly.
/// Clients derive it from the human-readable room name as its SHA-512 digest,
/// so names of any length map to a fixed-width key.
pub struct RoomToken {
    bytes: Vec<u8>,
}

impl View for RoomToken {
    type V = Seq<u8>;

    closed spec fn view(&self) -> Seq<u8> {
        self.bytes@
    }
}

impl RoomToken {
    /// Invariant of every token this module hands out: exactly 64 bytes.
    pub open spec fn wf(&self) -> bool {
        self@.len() == ROOM_TOKEN_LEN
    }

    /// Accepts exactly 64 bytes as a token; anything else is rejected.
    pub fn from_bytes(bytes: Vec<u8>) -> (token: Option<RoomToken>)
        ensures
            match token {
                Some(t) => t.wf() && t@ == bytes@,
                None => bytes@.len() != ROOM_TOKEN_LEN,
            },
    {
        if bytes.len() == ROOM_TOKEN_LEN {
            Some(RoomToken { bytes })
        } else {
            None
        }
    }

    /// The token's bytes, as a client writes them on its control channel.
    pub fn as_bytes(&self) -> (bytes: &Vec<u8>)
        ensures
            bytes@ == self@,
    {
        &self.bytes
    }

    /// Byte-exact equality, the registry's notion of "same room".
    pub fn eq_token(&self, other: &RoomToken) -> (eq: bool)
        ensures
            eq <==> self@ == other@,
    {
        if self.bytes.len() != other.bytes.len() {
            return false;
        }
        let n = self.bytes.len();
        let mut i: usize = 0;
        while i < n
            invariant
                n == self.bytes@.len(),
                n == other.bytes@.len(),
                i <= n,
                forall|j: int| 0 <= j < i ==> self.bytes@[j] == other.bytes@[j],
            decreases n - i,
        {
            if self.bytes[i] != other.bytes[i] {
                return false;
            }
            i += 1;
        }
        proof {
            assert(self.bytes@ =~= other.bytes@);
        }
        true
    }
}

/// The token for a human-readable room name: its SHA-512 digest, giving every
/// name a fixed-width, byte-exact key.
pub fn room_token_for(name: &Vec<u8>) -> (token: RoomToken)
    ensures
        token.wf(),
        token@ == sha512_digest(name@),
{
    let bytes = sha512(name);
    RoomToken { bytes }
}

/// What an accumulator holds after absorbing a chunk: the bytes it already
/// had, extended with as much of the chunk as still fits in a token.
pub open spec fn absorbed(acc: Seq<u8>, chunk: Seq<u8>) -> Seq<u8>
    recommends
        acc.len() <= ROOM_TOKEN_LEN,
{
    acc + chunk.take(vstd::math::min(chunk.len() as int, ROOM_TOKEN_LEN - acc.len()))
}

/// Collects a room token from a control channel that may deliver it in
/// several reads. Bytes beyond the token's width are left untouched for the
/// reads that follow (the settings byte).
pub struct TokenAccumulator {
    buf: Vec<u8>,
}

impl View for TokenAccumulator {
    type V = Seq<u8>;

    closed spec fn view(&self) -> Seq<u8> {
        self.buf@
    }
}

impl TokenAccumulator {
    /// Never holds more than one token's worth of bytes.
    pub open spec fn wf(&self) -> bool {
        self@.len() <= ROOM_TOKEN_LEN
    }

    pub fn new() -> (acc: TokenAccumulator)
        ensures
            acc.wf(),
            acc@ == Seq::<u8>::empty(),
    {
        let acc = TokenAccumulator { buf: Vec::new() };
        proof {
            assert(acc@ =~= Seq::<u8>::empty());
        }
        acc
    }

    /// Takes from `chunk` the prefix that still fits, and reports how many
    /// bytes were consumed; the chunk's remainder is not this token's.
    pub fn absorb(&mut self, chunk: &Vec<u8>) -> (consumed: usize)
        requires
            old(self).wf(),
        ensures
            final(self).wf(),
            final(self)@ == absorbed(old(self)@, chunk@),
            consumed == final(self)@.len() - old(self)@.len(),
    {
        let ghost pre = self@;
        let mut i: usize = 0;
        while self.buf.len() < ROOM_TOKEN_LEN && i < chunk.len()
            invariant
                i <= chunk@.len(),
                i + pre.len() == self.buf@.len(),
                self.buf@.len() <= ROOM_TOKEN_LEN,
                self.buf@ == pre + chunk@.take(i as int),
            decreases ROOM_TOKEN_LEN - self.buf.len(),
        {
            let b = chunk[i];
            self.buf.push(b);
            i += 1;
            proof {
                assert(self.buf@ =~= pre + chunk@.take(i as int));
            }
        }
        proof {
            assert(self.buf@ =~= absorbed(pre, chunk@));
        }
        i
    }

    /// True exactly when a full token has arrived.
    pub fn is_complete(&self) -> (complete: bool)
        ensures
            complete <==> self@.len() == ROOM_TOKEN_LEN,
    {
        self.buf.len() == ROOM_TOKEN_LEN
    }

    /// The collected token, once complete.
    pub fn into_token(self) -> (token: RoomToken)
        requires
            self@.len() == ROOM_TOKEN_LEN,
        ensures
            token.wf(),
            token@ == self@,
    {
        RoomToken { bytes: self.buf }
    }
}

} // verus!
