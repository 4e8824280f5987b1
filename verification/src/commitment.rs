//! The commitment secret: a 32-byte preimage and its SHA-256 hash. The maker publishes
//! the hash when a session starts and reveals the preimage once both second contracts
//! are funded; whoever receives a preimage checks it against the hash before trusting it.

use crate::bytes::bytes_eq;
use crate::error::Abort;
use bdk::bitcoin::hashes::sha256;
use bdk::bitcoin::secp256k1::rand::{thread_rng, Rng};
use vstd::prelude::*;

verus! {

/// The SHA-256 digest of a byte string.
pub uninterp spec fn sha256_digest(data: Seq<u8>) -> Seq<u8>;

/// Hashes `data` with `sha256::Hash::hash` of the bitcoin hashes library.
/// Trusted: the digest is a function of the input bytes alone.
#[verifier::external_body]
pub(crate) fn sha256(data: &[u8]) -> (digest: [u8; 32])
    ensures
        digest@ == sha256_digest(data@),
{
    bdk::bitcoin::hashes::Hash::into_inner(<sha256::Hash as bdk::bitcoin::hashes::Hash>::hash(data))
}

/// Draws 32 bytes from `thread_rng` with `Rng::fill`. Nothing is promised of the bytes.
#[verifier::external_body]
pub(crate) fn random_bytes() -> (bytes: [u8; 32]) {
    let mut bytes = [0u8; 32];
    thread_rng().fill(&mut bytes[..]);
    bytes
}

/// Whether `preimage` hashes to `hash`.
pub fn preimage_matches(preimage: &[u8; 32], hash: &[u8; 32]) -> (ok: bool)
    ensures
        ok == (sha256_digest(preimage@) == hash@),
{
    let digest = sha256(preimage.as_slice());
    bytes_eq(digest.as_slice(), hash.as_slice())
}

/// Draws a fresh secret and returns it with its hash.
pub fn gen_hash() -> (secret: ([u8; 32], [u8; 32]))
    ensures
        secret.1@ == sha256_digest(secret.0@),
{
    let preimage = random_bytes();
    let hash = sha256(preimage.as_slice());
    (preimage, hash)
}

/// A hash lock as its holder sees it: only the hash is known, or the preimage is too.
/// A received preimage gets in through `accept_preimage`, which checks it against the hash.
#[derive(Debug, Clone, Copy, PartialEq, Eq)]
pub enum Commitment {
    Committed { hash: [u8; 32] },
    Revealed { hash: [u8; 32], preimage: [u8; 32] },
}

/// The mathematical view of `Commitment`: the same value over sequences.
pub enum CommitmentView {
    Committed { hash: Seq<u8> },
    Revealed { hash: Seq<u8>, preimage: Seq<u8> },
}

impl View for Commitment {
    type V = CommitmentView;

    open spec fn view(&self) -> CommitmentView {
        match self {
            Commitment::Committed { hash } => CommitmentView::Committed { hash: hash@ },
            Commitment::Revealed { hash, preimage } => CommitmentView::Revealed {
                hash: hash@,
                preimage: preimage@,
            },
        }
    }
}

impl DeepView for Commitment {
    type V = CommitmentView;

    open spec fn deep_view(&self) -> CommitmentView {
        self@
    }
}

impl Commitment {
    /// The committed hash.
    pub open spec fn spec_hash(&self) -> Seq<u8> {
        match self {
            Commitment::Committed { hash } => hash@,
            Commitment::Revealed { hash, .. } => hash@,
        }
    }

    /// A revealed preimage hashes to the committed hash.
    pub open spec fn wf(&self) -> bool {
        match self {
            Commitment::Committed { .. } => true,
            Commitment::Revealed { hash, preimage } => sha256_digest(preimage@) == hash@,
        }
    }

    /// A commitment of which only the hash is known.
    pub fn committed(hash: [u8; 32]) -> (c: Commitment)
        ensures
            c@ == (CommitmentView::Committed { hash: hash@ }),
            c.wf(),
    {
        Commitment::Committed { hash }
    }

    /// The commitment to a preimage that its maker holds.
    pub fn from_preimage(preimage: [u8; 32]) -> (c: Commitment)
        ensures
            c@ == (CommitmentView::Revealed {
                hash: sha256_digest(preimage@),
                preimage: preimage@,
            }),
            c.wf(),
    {
        let hash = sha256(preimage.as_slice());
        Commitment::Revealed { hash, preimage }
    }

    /// The committed hash.
    pub fn hash(&self) -> (h: [u8; 32])
        ensures
            h@ == self.spec_hash(),
    {
        match self {
            Commitment::Committed { hash } => *hash,
            Commitment::Revealed { hash, .. } => *hash,
        }
    }

    /// The preimage, once it is known.
    pub fn preimage(&self) -> (p: Option<[u8; 32]>)
        ensures
            match self@ {
                CommitmentView::Committed { .. } => p is None,
                CommitmentView::Revealed { preimage, .. } => p matches Some(bytes) && bytes@
                    == preimage,
            },
    {
        match self {
            Commitment::Committed { .. } => None,
            Commitment::Revealed { preimage, .. } => Some(*preimage),
        }
    }

    /// Takes a preimage that a peer revealed. It is accepted exactly when it hashes to
    /// the committed hash; a mismatch is fatal and leaves the commitment as it was.
    pub fn accept_preimage(self, preimage: [u8; 32]) -> (revealed: Result<Commitment, Abort>)
        ensures
            revealed is Ok <==> sha256_digest(preimage@) == self.spec_hash(),
            revealed matches Ok(c) ==> c.wf() && c@ == (CommitmentView::Revealed {
                hash: self.spec_hash(),
                preimage: preimage@,
            }),
            revealed is Err ==> revealed == Err::<Commitment, Abort>(Abort::PreimageMismatch),
    {
        let hash = self.hash();
        if preimage_matches(&preimage, &hash) {
            Ok(Commitment::Revealed { hash, preimage })
        } else {
            Err(Abort::PreimageMismatch)
        }
    }
}

} // verus!
