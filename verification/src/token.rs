//! One-time seat secrets: how they are made, hashed and burned.

use vstd::prelude::*;
use crate::error::GameError;

verus! {

/// SHA-256 digest of a byte string, as the `sha2` crate computes it.
pub uninterp spec fn sha256(data: Seq<u8>) -> Seq<u8>;

/// URL-safe base64 text without padding for a byte string, as the `base64`
/// crate's `URL_SAFE_NO_PAD` engine writes it.
pub uninterp spec fn base64_url(data: Seq<u8>) -> Seq<char>;

/// Calls `sha2::Sha256::digest` (the `Digest` trait's one-shot function) and
/// copies the 32 bytes out. The contract names the digest and claims nothing
/// more of it.
#[verifier::external_body]
fn sha256_digest(data: &[u8]) -> (digest: [u8; 32])
    ensures
        digest@ == sha256(data@),
{
    <sha2::Sha256 as sha2::Digest>::digest(data).into()
}

/// Calls `base64::Engine::encode` on the `URL_SAFE_NO_PAD` engine. The
/// contract names the text and claims nothing more of it.
#[verifier::external_body]
fn base64_encode(data: &[u8]) -> (text: String)
    ensures
        text@ == base64_url(data@),
{
    base64::Engine::encode(&base64::engine::general_purpose::URL_SAFE_NO_PAD, data)
}

/// Digest under which a secret is stored.
pub open spec fn token_digest(secret: Seq<char>) -> Seq<u8> {
    sha256(vstd::utf8::encode_utf8(secret))
}

/// Hashes a secret: the SHA-256 digest of its UTF-8 bytes.
pub fn hash_token(secret: &str) -> (digest: [u8; 32])
    ensures
        digest@ == token_digest(secret@),
{
    sha256_digest(secret.as_bytes())
}

/// Turns bytes drawn from a secure random source into the secret handed to a
/// player.
pub fn encode_secret(random: &[u8]) -> (secret: String)
    ensures
        secret@ == base64_url(random@),
{
    base64_encode(random)
}

/// Whether two byte strings hold the same bytes.
pub fn same_bytes(a: &[u8], b: &[u8]) -> (same: bool)
    ensures
        same == (a@ == b@),
{
    if a.len() != b.len() {
        return false;
    }
    let mut i: usize = 0;
    while i < a.len()
        invariant
            a@.len() == b@.len(),
            i <= a@.len(),
            forall|j: int| 0 <= j < i ==> a@[j] == b@[j],
        decreases a@.len() - i,
    {
        if a[i] != b[i] {
            return false;
        }
        i += 1;
    }
    assert(a@ =~= b@);
    true
}

/// Identity of a caller, as the host resolves it: an opaque byte string that
/// is only ever compared for equality.
#[derive(Clone, Debug)]
pub struct Actor {
    pub id: Vec<u8>,
}

impl View for Actor {
    type V = Seq<u8>;

    open spec fn view(&self) -> Seq<u8> {
        self.id@
    }
}

impl Actor {
    /// The actor with the given identity bytes.
    pub fn new(id: Vec<u8>) -> (actor: Actor)
        ensures
            actor@ == id@,
    {
        Actor { id }
    }

    /// Whether two identities are the same.
    pub fn same(&self, other: &Actor) -> (same: bool)
        ensures
            same == (self@ == other@),
    {
        same_bytes(self.id.as_slice(), other.id.as_slice())
    }

    /// A copy with the same identity.
    pub fn duplicate(&self) -> (copy: Actor)
        ensures
            copy@ == self@,
    {
        Actor { id: self.id.clone() }
    }
}

/// A seat of a game: open to whoever holds the secret behind `hash`, or taken.
/// Taking a seat drops the hash, so a secret opens a seat once.
#[derive(Clone, Debug)]
pub enum Seat {
    Unclaimed { hash: [u8; 32] },
    Claimed { actor: Actor },
}

/// Mathematical value of a [`Seat`].
pub enum SeatModel {
    Unclaimed { hash: Seq<u8> },
    Claimed { actor: Seq<u8> },
}

impl View for Seat {
    type V = SeatModel;

    open spec fn view(&self) -> SeatModel {
        match *self {
            Seat::Unclaimed { hash } => SeatModel::Unclaimed { hash: hash@ },
            Seat::Claimed { actor } => SeatModel::Claimed { actor: actor@ },
        }
    }
}

impl SeatModel {
    /// Whether `actor` sits here.
    pub open spec fn held_by(self, actor: Seq<u8>) -> bool {
        self == (SeatModel::Claimed { actor })
    }

    /// What claiming the seat with `secret` gives `actor`: the seat taken, or
    /// the reason it stays as it is.
    pub open spec fn claim(self, secret: Seq<char>, actor: Seq<u8>) -> Result<SeatModel, GameError> {
        match self {
            SeatModel::Claimed { .. } => Err(GameError::SeatTaken),
            SeatModel::Unclaimed { hash } => if hash == token_digest(secret) {
                Ok(SeatModel::Claimed { actor })
            } else {
                Err(GameError::InvalidToken)
            },
        }
    }
}

impl Seat {
    /// A free seat that the secret with the given digest opens.
    pub fn unclaimed(hash: [u8; 32]) -> (seat: Seat)
        ensures
            seat@ == (SeatModel::Unclaimed { hash: hash@ }),
    {
        Seat::Unclaimed { hash }
    }

    /// A copy with the same value.
    pub fn duplicate(&self) -> (copy: Seat)
        ensures
            copy@ == self@,
    {
        match self {
            Seat::Unclaimed { hash } => Seat::Unclaimed { hash: *hash },
            Seat::Claimed { actor } => Seat::Claimed { actor: actor.duplicate() },
        }
    }

    /// Who sits here, if anybody.
    pub fn occupant(&self) -> (who: Option<Actor>)
        ensures
            match self@ {
                SeatModel::Claimed { actor } => who matches Some(a) && a@ == actor,
                SeatModel::Unclaimed { .. } => who is None,
            },
    {
        match self {
            Seat::Claimed { actor } => Some(actor.duplicate()),
            Seat::Unclaimed { .. } => None,
        }
    }

    /// Whether `actor` sits here.
    pub fn is_held_by(&self, actor: &Actor) -> (held: bool)
        ensures
            held == self@.held_by(actor@),
    {
        match self {
            Seat::Claimed { actor: a } => a.same(actor),
            Seat::Unclaimed { .. } => false,
        }
    }

    /// Claims the seat for `actor` with a candidate secret. A taken seat
    /// refuses with `SeatTaken`, a secret whose digest is not the stored one
    /// with `InvalidToken`; otherwise the seat is taken and the digest is gone
    /// for good.
    pub fn claim(&mut self, candidate: &str, actor: Actor) -> (outcome: Result<(), GameError>)
        ensures
            match old(self)@.claim(candidate@, actor@) {
                Ok(seat) => outcome is Ok && final(self)@ == seat,
                Err(e) => outcome == Err::<(), GameError>(e) && *final(self) == *old(self),
            },
    {
        match self {
            Seat::Claimed { .. } => Err(GameError::SeatTaken),
            Seat::Unclaimed { hash } => {
                let digest = hash_token(candidate);
                if same_bytes(hash.as_slice(), digest.as_slice()) {
                    *self = Seat::Claimed { actor };
                    Ok(())
                } else {
                    Err(GameError::InvalidToken)
                }
            },
        }
    }
}

} // verus!
