use vstd::prelude::*;

use ed25519_dalek::Signer;
use ed25519_dalek::Verifier;

use crate::digest::blake3_hash;
use crate::digest::blake3_of;
use crate::errors::KeyringError;

verus! {

/// The Ed25519 public key that the scheme's standard key-derivation rule
/// assigns to 32 bytes of secret key material: a function of those bytes
/// alone.
pub uninterp spec fn ed25519_public_of(secret: Seq<u8>) -> Seq<u8>;

/// The Ed25519 signature over a message under 32 bytes of secret key
/// material, as the scheme's deterministic signing algorithm defines it.
pub uninterp spec fn ed25519_signature_of(secret: Seq<u8>, message: Seq<u8>) -> Seq<u8>;

/// Whether 32 public-key bytes decode to a valid curve point whose key
/// accepts the 64 signature bytes over exactly these message bytes: a
/// function of the three byte strings alone.
pub uninterp spec fn ed25519_accepts(public: Seq<u8>, message: Seq<u8>, signature: Seq<u8>) -> bool;

/// Relies on ed25519_dalek::SigningKey::generate with rand's OsRng: 32 bytes
/// of secret key material drawn from the operating system's secure random
/// source. The value is random, so nothing is promised of it beyond its
/// length.
#[verifier::external_body]
fn fresh_secret_key() -> (r: Vec<u8>)
    ensures
        r@.len() == 32,
{
    let signing_key = ed25519_dalek::SigningKey::generate(&mut rand::rngs::OsRng);
    signing_key.to_bytes().to_vec()
}

/// Relies on ed25519_dalek::SigningKey::from_bytes (total on any 32 bytes)
/// and SigningKey::verifying_key: the 32-byte public key is derived from the
/// secret key bytes alone, deterministically.
#[verifier::external_body]
fn derive_public_key(secret: &[u8]) -> (r: Vec<u8>)
    requires
        secret@.len() == 32,
    ensures
        r@ == ed25519_public_of(secret@),
        r@.len() == 32,
{
    let mut key_bytes = [0u8; 32];
    key_bytes.copy_from_slice(secret);
    let signing_key = ed25519_dalek::SigningKey::from_bytes(&key_bytes);
    signing_key.verifying_key().to_bytes().to_vec()
}

/// Relies on ed25519_dalek's Signer::sign for SigningKey: deterministic
/// RFC 8032 signing, which never fails, yields 64 bytes, and produces a
/// signature that the scheme's verification accepts under the public key
/// derived from the same secret key — the scheme's defining guarantee.
#[verifier::external_body]
fn sign_with_key(message: &[u8], secret: &[u8]) -> (r: Vec<u8>)
    requires
        secret@.len() == 32,
    ensures
        r@ == ed25519_signature_of(secret@, message@),
        r@.len() == 64,
        ed25519_accepts(ed25519_public_of(secret@), message@, r@),
{
    let mut key_bytes = [0u8; 32];
    key_bytes.copy_from_slice(secret);
    let signing_key = ed25519_dalek::SigningKey::from_bytes(&key_bytes);
    let signature = signing_key.sign(message);
    signature.to_bytes().to_vec()
}

/// Relies on ed25519_dalek::VerifyingKey::from_bytes and Verifier::verify:
/// true exactly when the public-key bytes decompress to a valid point and
/// the signature passes the scheme's verification equation over the message.
/// A failed decode and a failed equation both come back as false, and both
/// depend on the argument bytes alone.
#[verifier::external_body]
fn verify_with_key(message: &[u8], signature: &[u8], public: &[u8]) -> (r: bool)
    requires
        signature@.len() == 64,
        public@.len() == 32,
    ensures
        r == ed25519_accepts(public@, message@, signature@),
{
    let mut pub_bytes = [0u8; 32];
    pub_bytes.copy_from_slice(public);
    let mut sig_bytes = [0u8; 64];
    sig_bytes.copy_from_slice(signature);
    let Ok(verifying_key) = ed25519_dalek::VerifyingKey::from_bytes(&pub_bytes) else {
        return false;
    };
    let sig = ed25519_dalek::Signature::from_bytes(&sig_bytes);
    verifying_key.verify(message, &sig).is_ok()
}

/// A freshly generated identity: 32 bytes of secret key material, the
/// 32-byte public key derived from it, and the 32-byte node identifier, the
/// BLAKE3 digest of the public key bytes.
pub struct Keypair {
    pub secret: Vec<u8>,
    pub public: Vec<u8>,
    pub node_id: Vec<u8>,
}

impl Keypair {
    /// The generation invariant: every field is the right width, the public
    /// key is the one derived from the secret key, and the node identifier
    /// is the digest of the public key bytes.
    pub open spec fn wf(self) -> bool {
        &&& self.secret@.len() == 32
        &&& self.public@ == ed25519_public_of(self.secret@)
        &&& self.public@.len() == 32
        &&& self.node_id@ == blake3_of(self.public@)
        &&& self.node_id@.len() == 32
    }
}

/// Generate an Ed25519 keypair from the process-wide secure random source.
/// The public key is derived from the fresh secret by the scheme's standard
/// rule, and the node identifier is the BLAKE3 digest of the public key's
/// canonical 32-byte encoding. There is no error path.
pub fn generate_keypair() -> (r: Keypair)
    ensures
        r.wf(),
{
    let secret = fresh_secret_key();
    let public = derive_public_key(secret.as_slice());
    let node_id = blake3_hash(public.as_slice());
    Keypair { secret, public, node_id }
}

/// Sign a message of any length with 32 bytes of secret key material. Key
/// material of any other length is rejected with `InvalidKeyLength` and
/// never interpreted; a 32-byte key always signs, and the 64-byte signature
/// verifies under the public key derived from that same key.
pub fn ed25519_sign(message: &[u8], secret_key: &[u8]) -> (r: Result<Vec<u8>, KeyringError>)
    ensures
        secret_key@.len() == 32 ==> r is Ok,
        r is Ok ==> r->Ok_0@ == ed25519_signature_of(secret_key@, message@),
        r is Ok ==> r->Ok_0@.len() == 64,
        r is Ok ==> ed25519_accepts(ed25519_public_of(secret_key@), message@, r->Ok_0@),
        secret_key@.len() != 32 <==> (r is Err && r->Err_0 == KeyringError::InvalidKeyLength),
{
    if secret_key.len() != 32 {
        return Err(KeyringError::InvalidKeyLength);
    }
    Ok(sign_with_key(message, secret_key))
}

/// Verify an Ed25519 signature over a message. Verification is total and
/// returns a plain boolean: true exactly when the signature is 64 bytes,
/// the public key 32 bytes, the key bytes decode to a valid point, and the
/// signature passes the scheme's check over exactly these message bytes.
/// A wrong length, an undecodable key and a cryptographic mismatch are all
/// the same `false` to the caller.
pub fn ed25519_verify(message: &[u8], signature: &[u8], public_key: &[u8]) -> (r: bool)
    ensures
        r == (signature@.len() == 64 && public_key@.len() == 32
            && ed25519_accepts(public_key@, message@, signature@)),
{
    if public_key.len() != 32 || signature.len() != 64 {
        return false;
    }
    verify_with_key(message, signature, public_key)
}

/// Round trip: signing any message with a well-formed keypair's secret key
/// and verifying the result under the same keypair's public key always
/// succeeds.
pub fn signed_message_verifies(keypair: &Keypair, message: &[u8]) -> (r: bool)
    requires
        keypair.wf(),
    ensures
        r,
{
    match ed25519_sign(message, keypair.secret.as_slice()) {
        Ok(signature) => ed25519_verify(message, signature.as_slice(), keypair.public.as_slice()),
        Err(_) => false,
    }
}

} // verus!
