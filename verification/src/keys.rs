//! Identities: Ed25519 public keys and the keypairs that sign for them.
//!
//! The curve arithmetic and the z-base-32 text of a key are the work of the
//! `pubky-common` and `pkarr` crates.  What they compute is named here by
//! spec functions without a body, and the functions that call them are
//! believed, not proved.

use vstd::prelude::*;

verus! {

/// The Ed25519 public key that belongs to a 32-byte secret.
pub uninterp spec fn ed25519_public_key(secret: Seq<u8>) -> Seq<u8>;

/// The Ed25519 signature of a message under a 32-byte secret.
pub uninterp spec fn ed25519_signature(secret: Seq<u8>, message: Seq<u8>) -> Seq<u8>;

/// The z-base-32 text of 32 bytes that are a point of the curve; `None` for
/// bytes that are no such point.
pub uninterp spec fn z32_encoding(bytes: Seq<u8>) -> Option<Seq<char>>;

/// The key bytes that a text stands for; `None` for a text that names no key.
pub uninterp spec fn z32_decoding(text: Seq<char>) -> Option<Seq<u8>>;

/// Calls `pubky_common::crypto::Keypair::from_secret` and `public_key`, and
/// hands out the key's bytes together with its z-base-32 text.  Claimed: the
/// bytes are the public key of the secret, and the text is the encoding of
/// exactly these bytes.
#[verifier::external_body]
fn derive_public_key(secret: &[u8; 32]) -> (public: ([u8; 32], String))
    ensures
        public.0@ == ed25519_public_key(secret@),
        z32_encoding(public.0@) == Some(public.1@),
{
    let key = pubky_common::crypto::Keypair::from_secret(secret).public_key();
    (key.to_bytes(), key.z32())
}

/// Calls `sign` of `pkarr::Keypair`, reached through
/// `pubky_common::crypto::Keypair`.  Claimed: the 64 bytes are the Ed25519
/// signature of the message under the secret, which depends on nothing else.
#[verifier::external_body]
fn sign_detached(secret: &[u8; 32], message: &[u8]) -> (signature: [u8; 64])
    ensures
        signature@ == ed25519_signature(secret@, message@),
{
    pubky_common::crypto::Keypair::from_secret(secret).sign(message).to_bytes()
}

/// Calls `pkarr::PublicKey::try_from` on 32 bytes and `to_z32` on the key.
/// Claimed: the text is the encoding of the bytes, and there is none where
/// the bytes are refused.
#[verifier::external_body]
fn encode_z32(bytes: &[u8; 32]) -> (text: Option<String>)
    ensures
        match text {
            Some(t) => z32_encoding(bytes@) == Some(t@),
            None => z32_encoding(bytes@) is None,
        },
{
    match pkarr::PublicKey::try_from(bytes) {
        Ok(key) => Some(key.to_z32()),
        Err(_) => None,
    }
}

/// Calls `pubky_common::crypto::PublicKey::try_from_z32` and `to_bytes`.
/// Claimed: the bytes are those that the text stands for, and there are none
/// where the text is refused.  A text is accepted only where its bytes are
/// a point of the curve, so the bytes handed out have an encoding.
#[verifier::external_body]
fn decode_z32(text: &str) -> (bytes: Option<[u8; 32]>)
    ensures
        match bytes {
            Some(b) => z32_decoding(text@) == Some(b@) && z32_encoding(b@) is Some,
            None => z32_decoding(text@) is None,
        },
{
    match pubky_common::crypto::PublicKey::try_from_z32(text) {
        Ok(key) => Some(key.to_bytes()),
        Err(_) => None,
    }
}

/// Whether two keys hold the same bytes.
pub fn same_bytes(a: &[u8; 32], b: &[u8; 32]) -> (equal: bool)
    ensures
        equal == (a@ == b@),
{
    let mut i: usize = 0;
    while i < 32
        invariant
            i <= 32,
            forall|j: int| 0 <= j < i ==> a@[j] == b@[j],
        decreases 32 - i,
    {
        if a[i] != b[i] {
            return false;
        }
        i += 1;
    }
    assert(a@ =~= b@);
    true
}

/// The public key of an identity: 32 bytes, and their z-base-32 text for
/// use in paths and host names.
#[derive(Debug, PartialEq, Eq, Hash)]
pub struct PublicKey {
    bytes: [u8; 32],
    text: String,
}

impl View for PublicKey {
    type V = Seq<u8>;

    closed spec fn view(&self) -> Seq<u8> {
        self.bytes@
    }
}

impl PublicKey {
    /// The text of a key is always the encoding of its bytes.
    #[verifier::type_invariant]
    closed spec fn canonical(&self) -> bool {
        z32_encoding(self.bytes@) == Some(self.text@)
    }

    /// The key's z-base-32 text.
    pub closed spec fn z32_spec(&self) -> Seq<char> {
        self.text@
    }

    /// The key with the given bytes, where they are a point of the curve.
    pub fn from_bytes(bytes: [u8; 32]) -> (key: Option<PublicKey>)
        ensures
            key is Some <==> z32_encoding(bytes@) is Some,
            key is Some ==> key->Some_0@ == bytes@ && Some(key->Some_0.z32_spec())
                == z32_encoding(bytes@),
    {
        match encode_z32(&bytes) {
            Some(text) => Some(PublicKey { bytes, text }),
            None => None,
        }
    }

    /// The key that a text names, for every text that names one.  The key's
    /// own text is the canonical one, which may differ from the text given.
    pub fn from_z32(text: &str) -> (key: Option<PublicKey>)
        ensures
            key is Some <==> z32_decoding(text@) is Some,
            key is Some ==> Some(key->Some_0@) == z32_decoding(text@) && Some(
                key->Some_0.z32_spec(),
            ) == z32_encoding(key->Some_0@),
    {
        match decode_z32(text) {
            Some(bytes) => PublicKey::from_bytes(bytes),
            None => None,
        }
    }

    /// The key's bytes.
    pub fn to_bytes(&self) -> (bytes: [u8; 32])
        ensures
            bytes@ == self@,
    {
        self.bytes
    }

    /// The key's z-base-32 text: the encoding of its bytes.
    pub fn z32(&self) -> (text: String)
        ensures
            text@ == self.z32_spec(),
            z32_encoding(self@) == Some(text@),
    {
        proof {
            use_type_invariant(self);
        }
        self.text.clone()
    }

    /// Whether two keys are the same identity: equality is by the bytes.
    pub fn same(&self, other: &PublicKey) -> (equal: bool)
        ensures
            equal == (self@ == other@),
    {
        same_bytes(&self.bytes, &other.bytes)
    }
}

impl Clone for PublicKey {
    fn clone(&self) -> (copy: PublicKey)
        ensures
            copy == *self,
    {
        proof {
            use_type_invariant(self);
        }
        PublicKey { bytes: self.bytes, text: self.text.clone() }
    }
}

/// A signing key together with the public key derived from it.
pub struct Keypair {
    secret: [u8; 32],
    public: PublicKey,
}

impl Keypair {
    /// The public key of a keypair is always the one derived from its secret.
    #[verifier::type_invariant]
    closed spec fn derived(&self) -> bool {
        self.public@ == ed25519_public_key(self.secret@)
    }

    /// The secret bytes.
    pub closed spec fn secret_spec(&self) -> Seq<u8> {
        self.secret@
    }

    /// The public key.
    pub closed spec fn public_spec(&self) -> PublicKey {
        self.public
    }

    /// The keypair of a secret.
    pub fn from_secret(secret: [u8; 32]) -> (keypair: Keypair)
        ensures
            keypair.secret_spec() == secret@,
            keypair.public_spec()@ == ed25519_public_key(secret@),
    {
        let (bytes, text) = derive_public_key(&secret);
        Keypair { secret, public: PublicKey { bytes, text } }
    }

    /// The secret bytes, for the caller that has to hand them to a signer of
    /// its own.
    pub fn secret(&self) -> (secret: [u8; 32])
        ensures
            secret@ == self.secret_spec(),
    {
        self.secret
    }

    /// The identity that this keypair signs for: the key derived from the
    /// secret.
    pub fn public_key(&self) -> (key: &PublicKey)
        ensures
            *key == self.public_spec(),
            key@ == ed25519_public_key(self.secret_spec()),
    {
        proof {
            use_type_invariant(self);
        }
        &self.public
    }

    /// Signs a message.
    pub fn sign(&self, message: &[u8]) -> (signature: [u8; 64])
        ensures
            signature@ == ed25519_signature(self.secret_spec(), message@),
    {
        sign_detached(&self.secret, message)
    }
}

impl Clone for Keypair {
    fn clone(&self) -> (copy: Keypair)
        ensures
            copy == *self,
    {
        proof {
            use_type_invariant(self);
        }
        Keypair { secret: self.secret, public: self.public.clone() }
    }
}

} // verus!
