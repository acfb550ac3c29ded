//! Keys, signatures and challenges, from openssl and rand.
//!
//! Everything here is trusted: each item states what the outside crate's source
//! shows and nothing is proved of its body. Keys are read from PEM, signatures are
//! ECDSA (or whatever the key's algorithm is) over SHA-256, and challenges are drawn
//! from a ChaCha generator seeded by the thread generator. PEM text is always read
//! with a passphrase that the caller hands in (empty where none was asked for), so
//! that openssl never asks the terminal for one itself.

use vstd::prelude::*;
use openssl::hash::MessageDigest;
use openssl::pkey::{PKey, Private, Public};
use openssl::sign::{Signer, Verifier};
use rand::{Rng, SeedableRng};
use rand_chacha::ChaChaRng;

verus! {

#[verifier::external_type_specification]
#[verifier::external_body]
#[verifier::reject_recursive_types(T)]
pub struct ExPKey<T>(PKey<T>);

#[verifier::external_type_specification]
#[verifier::external_body]
pub struct ExPublic(Public);

#[verifier::external_type_specification]
#[verifier::external_body]
pub struct ExPrivate(Private);

/// How a public key is written down.
#[derive(Debug, Clone, Copy, PartialEq, Eq, Structural)]
pub enum KeyEncoding {
    Pem,
    Der,
}

/// Whether openssl reads these bytes as a PEM public key.
pub uninterp spec fn public_key_pem_accepted(pem: Seq<u8>) -> bool;

/// Whether openssl reads these bytes as a DER public key.
pub uninterp spec fn public_key_der_accepted(der: Seq<u8>) -> bool;

/// Whether openssl reads the PEM text `pem` as a private key, unlocking it with
/// `passphrase` if it is encrypted.
pub uninterp spec fn private_key_accepted(pem: Seq<u8>, passphrase: Seq<u8>) -> bool;

/// Whether openssl finds the public key read from `public` (its encoding and its
/// bytes) equal to the public half of the private key read from `private` (its PEM
/// text and the passphrase it was unlocked with), as `PKeyRef::public_eq` answers.
pub uninterp spec fn key_pair(public: (KeyEncoding, Seq<u8>), private: (Seq<u8>, Seq<u8>)) -> bool;

/// What openssl answers when asked whether `signature` is a valid SHA-256 signature of
/// `message` under the public key read from `key` (its encoding and its bytes):
/// `Some(true)` or `Some(false)`, or `None` when openssl reports an error.
pub uninterp spec fn signature_verdict(key: (KeyEncoding, Seq<u8>), message: Seq<u8>, signature: Seq<u8>) -> Option<bool>;

/// A public key, together with the bytes it was read from.
///
/// A value is only made by reading `encoded` with openssl, so `key` is always what
/// openssl reads from `encoded`.
pub struct PublicKey {
    encoding: KeyEncoding,
    encoded: Vec<u8>,
    key: PKey<Public>,
}

impl View for PublicKey {
    type V = (KeyEncoding, Seq<u8>);

    /// How the key was written, and the bytes it was read from.
    closed spec fn view(&self) -> (KeyEncoding, Seq<u8>) {
        (self.encoding, self.encoded@)
    }
}

/// Whether `signature` is a signature of `message` by the private key read from
/// `private` (PEM text and passphrase): every public key that pairs with that private
/// key accepts it.
pub open spec fn signed_by(private: (Seq<u8>, Seq<u8>), message: Seq<u8>, signature: Seq<u8>) -> bool {
    forall|public: (KeyEncoding, Seq<u8>)| #[trigger] key_pair(public, private) ==> signature_verdict(
        public,
        message,
        signature,
    ) == Some(true)
}

/// A private key, together with the PEM text it was read from and the passphrase
/// that unlocked it.
///
/// A value is only made by reading `pem` with `passphrase` with openssl, so `key` is
/// always what openssl reads from them.
pub struct PrivateKey {
    pem: Vec<u8>,
    passphrase: Vec<u8>,
    key: PKey<Private>,
}

impl View for PrivateKey {
    type V = (Seq<u8>, Seq<u8>);

    /// The PEM text the key was read from, and the passphrase it was read with.
    closed spec fn view(&self) -> (Seq<u8>, Seq<u8>) {
        (self.pem@, self.passphrase@)
    }
}

/// Reads a public key from PEM text (openssl `PKey::public_key_from_pem_passphrase`,
/// with an empty passphrase).
///
/// Claimed: a key comes back exactly when openssl accepts the text, which depends on
/// the text alone (the passphrase is fixed, so openssl never prompts), and the key
/// keeps that text as its view. openssl asserts that the text fits in a C `int`; that
/// is required.
#[verifier::external_body]
fn read_public_key_pem(pem: &[u8]) -> (r: Option<PublicKey>)
    requires
        pem@.len() <= i32::MAX,
    ensures
        r is Some <==> public_key_pem_accepted(pem@),
        r matches Some(k) ==> k@ == (KeyEncoding::Pem, pem@),
{
    match PKey::public_key_from_pem_passphrase(pem, b"") {
        Ok(key) => Some(PublicKey { encoding: KeyEncoding::Pem, encoded: pem.to_vec(), key }),
        Err(_) => None,
    }
}

/// Reads a public key from DER bytes (openssl `PKey::public_key_from_der`).
///
/// Claimed: a key comes back exactly when openssl accepts the bytes, which depends on
/// the bytes alone, and the key keeps them as its view.
#[verifier::external_body]
fn read_public_key_der(der: &[u8]) -> (r: Option<PublicKey>)
    ensures
        r is Some <==> public_key_der_accepted(der@),
        r matches Some(k) ==> k@ == (KeyEncoding::Der, der@),
{
    match PKey::public_key_from_der(der) {
        Ok(key) => Some(PublicKey { encoding: KeyEncoding::Der, encoded: der.to_vec(), key }),
        Err(_) => None,
    }
}

/// Reads a private key from PEM text, unlocking it with `passphrase` if it is
/// encrypted (openssl `PKey::private_key_from_pem_passphrase`).
///
/// Claimed: a key comes back exactly when openssl accepts the text with that
/// passphrase, which depends on the two alone (openssl is handed the passphrase, so it
/// never prompts), and the key keeps both as its view. openssl asserts that the text
/// fits in a C `int`, and makes a C string of the passphrase, which must hold no zero
/// byte; both are required.
#[verifier::external_body]
fn read_private_key_pem(pem: &[u8], passphrase: &[u8]) -> (r: Option<PrivateKey>)
    requires
        pem@.len() <= i32::MAX,
        !passphrase@.contains(0u8),
    ensures
        r is Some <==> private_key_accepted(pem@, passphrase@),
        r matches Some(k) ==> k@ == (pem@, passphrase@),
{
    match PKey::private_key_from_pem_passphrase(pem, passphrase) {
        Ok(key) => Some(PrivateKey { pem: pem.to_vec(), passphrase: passphrase.to_vec(), key }),
        Err(_) => None,
    }
}

/// Compares a public key with the public half of a private key (openssl
/// `PKeyRef::public_eq`).
///
/// Claimed: the answer depends on the two keys' encoded bytes alone.
#[verifier::external_body]
fn same_public_key(public: &PublicKey, private: &PrivateKey) -> (r: bool)
    ensures
        r == key_pair(public@, private@),
{
    public.key.public_eq(&private.key)
}

/// Checks a SHA-256 signature (openssl `Verifier::new`, `update` and `verify`).
///
/// Claimed: the answer is a function of the key's encoded bytes, the message and the
/// signature alone (openssl maps a valid signature to `true`, an invalid one to
/// `false`, and an internal failure to an error, here `None`).
#[verifier::external_body]
pub(crate) fn verify_sha256(key: &PublicKey, message: &[u8], signature: &[u8]) -> (r: Option<bool>)
    ensures
        r == signature_verdict(key@, message@, signature@),
{
    let mut verifier = match Verifier::new(MessageDigest::sha256(), &key.key) {
        Ok(v) => v,
        Err(_) => return None,
    };
    match verifier.update(message) {
        Ok(()) => {},
        Err(_) => return None,
    }
    match verifier.verify(signature) {
        Ok(b) => Some(b),
        Err(_) => None,
    }
}

/// Signs with SHA-256 (openssl `Signer::new`, `update` and `sign_to_vec`).
///
/// Claimed: a signature that comes back is one that the corresponding public key
/// verifies for `message`, as openssl documents of `Signer` and `Verifier`. Which
/// signature it is is left unsaid: ECDSA draws a fresh nonce for every signature, so
/// two calls on the same input differ. `None` stands for an openssl error, which
/// nothing here rules out.
#[verifier::external_body]
pub(crate) fn sign_sha256(key: &PrivateKey, message: &[u8]) -> (r: Option<Vec<u8>>)
    ensures
        r matches Some(s) ==> signed_by(key@, message@, s@),
{
    let mut signer = match Signer::new(MessageDigest::sha256(), &key.key) {
        Ok(s) => s,
        Err(_) => return None,
    };
    match signer.update(message) {
        Ok(()) => {},
        Err(_) => return None,
    }
    match signer.sign_to_vec() {
        Ok(sig) => Some(sig),
        Err(_) => None,
    }
}

/// Draws `len` random bytes from a ChaCha generator seeded by the thread generator
/// (rand_chacha `ChaChaRng::from_rng(rand::thread_rng())`, then `Rng::fill`).
///
/// Claimed: exactly `len` bytes come back; what the bytes are is left unsaid, as it
/// rests on chance. Seeding from the thread generator never reports an error: the
/// thread generator is a block generator, whose `try_fill_bytes` always returns `Ok`
/// (rand_core `BlockRng`), so `from_rng` always succeeds and the `None` arm is never
/// taken. ChaCha never fails to fill, so `fill` does not panic; the thread generator
/// panics only if the operating system has no randomness to give at all.
#[verifier::external_body]
pub(crate) fn random_bytes(len: usize) -> (r: Option<Vec<u8>>)
    ensures
        r is Some,
        r matches Some(v) ==> v@.len() == len,
{
    let mut rng = match ChaChaRng::from_rng(rand::thread_rng()) {
        Ok(rng) => rng,
        Err(_) => return None,
    };
    let mut bytes = vec![0u8; len];
    rng.fill(&mut bytes[..]);
    Some(bytes)
}

impl PublicKey {
    /// Reads a public key from PEM text; `None` when openssl does not accept it.
    pub fn from_pem(pem: &[u8]) -> (r: Option<PublicKey>)
        requires
            pem@.len() <= i32::MAX,
        ensures
            r is Some <==> public_key_pem_accepted(pem@),
            r matches Some(k) ==> k@ == (KeyEncoding::Pem, pem@),
    {
        read_public_key_pem(pem)
    }

    /// Reads a public key from DER bytes; `None` when openssl does not accept them.
    pub fn from_der(der: &[u8]) -> (r: Option<PublicKey>)
        ensures
            r is Some <==> public_key_der_accepted(der@),
            r matches Some(k) ==> k@ == (KeyEncoding::Der, der@),
    {
        read_public_key_der(der)
    }

    /// Whether this is the public half of `key`.
    pub fn pairs_with(&self, key: &PrivateKey) -> (r: bool)
        ensures
            r == key_pair(self@, key@),
    {
        same_public_key(self, key)
    }
}

impl PrivateKey {
    /// Reads an unencrypted private key from PEM text; `None` when openssl does not
    /// accept it, an encrypted key among them.
    pub fn from_pem(pem: &[u8]) -> (r: Option<PrivateKey>)
        requires
            pem@.len() <= i32::MAX,
        ensures
            r is Some <==> private_key_accepted(pem@, Seq::<u8>::empty()),
            r matches Some(k) ==> k@ == (pem@, Seq::<u8>::empty()),
    {
        let no_passphrase: Vec<u8> = Vec::new();
        proof {
            assert(no_passphrase@ =~= Seq::<u8>::empty());
        }
        read_private_key_pem(pem, no_passphrase.as_slice())
    }

    /// Reads a private key from PEM text, unlocking it with `passphrase` if it is
    /// encrypted; `None` when openssl does not accept the two.
    pub fn from_pem_passphrase(pem: &[u8], passphrase: &[u8]) -> (r: Option<PrivateKey>)
        requires
            pem@.len() <= i32::MAX,
            !passphrase@.contains(0u8),
        ensures
            r is Some <==> private_key_accepted(pem@, passphrase@),
            r matches Some(k) ==> k@ == (pem@, passphrase@),
    {
        read_private_key_pem(pem, passphrase)
    }
}

} // verus!
