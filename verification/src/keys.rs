//! Ed25519 key pairs as bytes.

use ed25519_dalek::SigningKey;
use rand::rngs::OsRng;
use vstd::prelude::*;

use crate::base58::{base58, bs58_encode};
use crate::text::ascii_lowered;
use crate::vanity::{key_matches, VanityResult};

verus! {

/// The Ed25519 public key that `SigningKey::verifying_key` derives from a secret key.
pub uninterp spec fn ed25519_public_key(secret: Seq<u8>) -> Seq<u8>;

/// Calls `SigningKey::generate` with the operating system's generator, and takes the
/// secret and the public key out as bytes. Claims that the second array is the public key
/// of the first. Which secret is drawn is left to chance; the call panics if the
/// operating system has no randomness to give.
#[verifier::external_body]
fn signing_key_generate() -> (res: ([u8; 32], [u8; 32]))
    ensures
        res.1@ == ed25519_public_key(res.0@),
{
    let key = SigningKey::generate(&mut OsRng);
    (key.to_bytes(), key.verifying_key().to_bytes())
}

/// A secret key together with its public key.
#[derive(Clone, Copy)]
pub struct Candidate {
    secret: [u8; 32],
    public: [u8; 32],
}

impl Candidate {
    #[verifier::type_invariant]
    spec fn is_key_pair(self) -> bool {
        self.public@ == ed25519_public_key(self.secret@)
    }

    /// The secret key.
    pub closed spec fn secret(self) -> Seq<u8> {
        self.secret@
    }

    /// The public key.
    pub closed spec fn public(self) -> Seq<u8> {
        self.public@
    }

    /// The key pair came from the generator. A contract that says so can be met only by
    /// generating it.
    pub closed spec fn is_generated(self) -> bool {
        exists|secret: [u8; 32], public: [u8; 32]|
            {
                &&& #[trigger] call_ensures(signing_key_generate, (), (secret, public))
                &&& self.secret() == secret@
                &&& self.public() == public@
            }
    }

    /// Draws a fresh key pair.
    pub fn draw() -> (res: Candidate)
        ensures
            res.public() == ed25519_public_key(res.secret()),
            res.is_generated(),
    {
        let (secret, public) = signing_key_generate();
        Candidate { secret, public }
    }

    /// The secret key.
    pub fn secret_key(&self) -> (res: &[u8; 32])
        ensures
            res@ == self.secret(),
    {
        &self.secret
    }

    /// The public key, which belongs to the secret key.
    pub fn public_key(&self) -> (res: &[u8; 32])
        ensures
            res@ == self.public(),
            res@ == ed25519_public_key(self.secret()),
    {
        proof {
            use_type_invariant(self);
        }
        &self.public
    }

    /// The key pair in the forms in which it is handed out.
    pub fn to_result(&self, attempts: u64) -> (res: VanityResult)
        ensures
            res.public_key_base58@ == base58(self.public()),
            res.secret_key_bytes@ == self.secret(),
            res.full_keypair_bytes@ == self.secret() + self.public(),
            res.full_keypair_bytes@.len() == 64,
            res.attempts == attempts,
            self.public() == ed25519_public_key(self.secret()),
    {
        proof {
            use_type_invariant(self);
        }
        let mut full_keypair_bytes: Vec<u8> = Vec::with_capacity(64);
        full_keypair_bytes.extend_from_slice(self.secret.as_slice());
        full_keypair_bytes.extend_from_slice(self.public.as_slice());
        assert(full_keypair_bytes@ == self.secret@ + self.public@);
        VanityResult {
            public_key_base58: bs58_encode(&self.public),
            secret_key_bytes: self.secret,
            full_keypair_bytes,
            attempts,
        }
    }
}

impl VanityResult {
    /// The result is what a search for `suffix` promises: the text is that of the public
    /// key which belongs to the secret key, the 64 bytes are the secret key followed by
    /// the public key, and the public key is a hit.
    pub open spec fn is_hit_for(self, suffix: Seq<char>, case_insensitive: bool) -> bool {
        let public = ed25519_public_key(self.secret_key_bytes@);
        &&& self.public_key_base58@ == base58(public)
        &&& self.full_keypair_bytes@ == self.secret_key_bytes@ + public
        &&& self.full_keypair_bytes@.len() == 64
        &&& key_matches(public, suffix, case_insensitive)
    }
}

/// The text of a result ends in the suffix that was searched for; if letter case was
/// ignored, in a text that differs from the suffix only in case.
pub proof fn hit_ends_in_suffix(result: VanityResult, suffix: Seq<char>, case_insensitive: bool)
    requires
        result.is_hit_for(suffix, case_insensitive),
    ensures
        suffix.len() <= result.public_key_base58@.len(),
        ({
            let text = result.public_key_base58@;
            let end = text.skip(text.len() - suffix.len());
            if case_insensitive {
                ascii_lowered(end) == ascii_lowered(suffix)
            } else {
                end == suffix
            }
        }),
{
    let text = result.public_key_base58@;
    let start = text.len() - suffix.len();
    if case_insensitive {
        assert(ascii_lowered(text).len() == text.len());
        assert(ascii_lowered(suffix).len() == suffix.len());
        assert(ascii_lowered(text.skip(start)) == ascii_lowered(text).skip(start));
    }
}

/// A key pair that is drawn is what `SigningKey::generate` gave.
proof fn drawn_key_pair_comes_from_the_generator(candidate: Candidate)
    requires
        call_ensures(Candidate::draw, (), candidate),
    ensures
        exists|secret: [u8; 32], public: [u8; 32]|
            {
                &&& #[trigger] call_ensures(signing_key_generate, (), (secret, public))
                &&& candidate.secret() == secret@
                &&& candidate.public() == public@
            },
{
}

} // verus!
