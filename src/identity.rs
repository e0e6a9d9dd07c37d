//! Peer identities (ed25519 public keys) and the secret key of this node, with
//! their text and file encodings.
use ed25519_dalek::pkcs8::spki::der::pem::LineEnding;
use ed25519_dalek::pkcs8::{DecodePrivateKey, EncodePrivateKey};
use ed25519_dalek::{SigningKey, VerifyingKey};
use rand_core::OsRng;
use vstd::prelude::*;

verus! {

/// The z-base-32 text of a byte string, as the z32 crate encodes it.
pub uninterp spec fn z32_text(bytes: Seq<u8>) -> Seq<char>;

/// The bytes that the z32 crate decodes from a text, if it is z-base-32.
pub uninterp spec fn z32_bytes(text: Seq<char>) -> Option<Seq<u8>>;

/// Whether 32 bytes are the compressed form of an ed25519 public key.
pub uninterp spec fn valid_public_key(bytes: Seq<u8>) -> bool;

/// The ed25519 public key of a 32-byte secret key.
pub uninterp spec fn public_key_of(secret: Seq<u8>) -> Seq<u8>;

/// The PKCS#8 PEM document, with LF line endings, of a 32-byte ed25519
/// secret key, if it encodes.
pub uninterp spec fn pkcs8_pem_of(secret: Seq<u8>) -> Option<Seq<char>>;

/// The 32-byte ed25519 secret key held by a PKCS#8 PEM document, if any.
pub uninterp spec fn pkcs8_secret_of(pem: Seq<char>) -> Option<Seq<u8>>;

/// Relies on z32::encode: the z-base-32 text of the bytes.
#[verifier::external_body]
fn encode_z32(bytes: &[u8; 32]) -> (r: String)
    ensures
        r@ == z32_text(bytes@),
{
    z32::encode(bytes.as_slice())
}

/// Relies on z32::decode: the bytes of a z-base-32 text, or an error.
#[verifier::external_body]
fn decode_z32(text: &str) -> (r: Option<Vec<u8>>)
    ensures
        r matches Some(v) ==> z32_bytes(text@) == Some(v@),
        r is None ==> z32_bytes(text@) is None,
{
    z32::decode(text.as_bytes()).ok()
}

/// Relies on `<[u8; 32]>::try_from(&[u8])`: succeeds exactly on 32 bytes.
#[verifier::external_body]
fn to_key_bytes(v: &[u8]) -> (r: Option<[u8; 32]>)
    ensures
        r matches Some(a) ==> a@ == v@,
        r is None <==> v@.len() != 32,
{
    <[u8; 32]>::try_from(v).ok()
}

/// Relies on ed25519_dalek::VerifyingKey::from_bytes: whether the bytes
/// decompress to a public key.
#[verifier::external_body]
fn check_public_key(bytes: &[u8; 32]) -> (r: bool)
    ensures
        r == valid_public_key(bytes@),
{
    VerifyingKey::from_bytes(bytes).is_ok()
}

/// Relies on ed25519_dalek::SigningKey::verifying_key: the public key of a
/// secret key.
#[verifier::external_body]
fn derive_public_key(secret: &[u8; 32]) -> (r: [u8; 32])
    ensures
        r@ == public_key_of(secret@),
{
    SigningKey::from_bytes(secret).verifying_key().to_bytes()
}

/// Relies on ed25519_dalek::SigningKey::generate with rand_core's OsRng: a
/// fresh random secret key.
#[verifier::external_body]
fn random_secret() -> (r: [u8; 32]) {
    SigningKey::generate(&mut OsRng).to_bytes()
}

/// Relies on pkcs8's EncodePrivateKey::to_pkcs8_pem for an ed25519 signing
/// key, with LF line endings on every platform.
#[verifier::external_body]
fn encode_pkcs8_pem(secret: &[u8; 32]) -> (r: Option<String>)
    ensures
        r matches Some(s) ==> pkcs8_pem_of(secret@) == Some(s@),
        r is None ==> pkcs8_pem_of(secret@) is None,
{
    SigningKey::from_bytes(secret).to_pkcs8_pem(LineEnding::LF).ok().map(|s| s.to_string())
}

/// Relies on pkcs8's DecodePrivateKey::from_pkcs8_pem for an ed25519
/// signing key.
#[verifier::external_body]
fn decode_pkcs8_pem(pem: &str) -> (r: Option<[u8; 32]>)
    ensures
        r matches Some(a) ==> pkcs8_secret_of(pem@) == Some(a@),
        r is None ==> pkcs8_secret_of(pem@) is None,
{
    SigningKey::from_pkcs8_pem(pem).ok().map(|k| k.to_bytes())
}

/// Why a text or a byte string is not a peer identity.
#[derive(Clone, Copy, PartialEq, Eq, Debug, Structural)]
pub enum IdentityError {
    /// The text is not z-base-32.
    InvalidEncoding,
    /// The bytes are not 32 long.
    InvalidLength,
    /// The 32 bytes are not an ed25519 public key.
    InvalidKey,
}

/// The public identifier of a participant: its ed25519 public key.
#[derive(Clone, Copy, Debug)]
pub struct PeerIdentity {
    key: [u8; 32],
}

impl View for PeerIdentity {
    type V = Seq<u8>;

    closed spec fn view(&self) -> Seq<u8> {
        self.key@
    }
}

/// The identity that `from_bytes` makes of some bytes.
pub open spec fn identity_of_bytes(b: Seq<u8>) -> Result<Seq<u8>, IdentityError> {
    if b.len() != 32 {
        Err(IdentityError::InvalidLength)
    } else if !valid_public_key(b) {
        Err(IdentityError::InvalidKey)
    } else {
        Ok(b)
    }
}

/// The identity that `from_z32` makes of a text.
pub open spec fn identity_of_text(t: Seq<char>) -> Result<Seq<u8>, IdentityError> {
    match z32_bytes(t) {
        None => Err(IdentityError::InvalidEncoding),
        Some(b) => identity_of_bytes(b),
    }
}

pub open spec fn result_view(r: Result<PeerIdentity, IdentityError>) -> Result<Seq<u8>, IdentityError> {
    match r {
        Ok(p) => Ok(p@),
        Err(e) => Err(e),
    }
}

impl PeerIdentity {
    /// The identity whose public key is `bytes`.
    pub fn from_bytes(bytes: &[u8]) -> (r: Result<PeerIdentity, IdentityError>)
        ensures
            result_view(r) == identity_of_bytes(bytes@),
    {
        match to_key_bytes(bytes) {
            None => Err(IdentityError::InvalidLength),
            Some(key) => {
                if check_public_key(&key) {
                    Ok(PeerIdentity { key })
                } else {
                    Err(IdentityError::InvalidKey)
                }
            },
        }
    }

    /// The identity written as z-base-32 text.
    pub fn from_z32(text: &str) -> (r: Result<PeerIdentity, IdentityError>)
        ensures
            result_view(r) == identity_of_text(text@),
    {
        match decode_z32(text) {
            None => Err(IdentityError::InvalidEncoding),
            Some(bytes) => PeerIdentity::from_bytes(bytes.as_slice()),
        }
    }

    /// The z-base-32 text of the identity.
    pub fn to_z32(&self) -> (r: String)
        ensures
            r@ == z32_text(self@),
    {
        encode_z32(&self.key)
    }

    /// The 32 bytes of the public key.
    pub fn to_bytes(&self) -> (r: [u8; 32])
        ensures
            r@ == self@,
    {
        self.key
    }

    /// Whether two identities are the same key.
    pub fn same(&self, other: &PeerIdentity) -> (r: bool)
        ensures
            r == (self@ == other@),
    {
        let mut i: usize = 0;
        while i < 32
            invariant
                i <= 32,
                self.key@.len() == 32,
                other.key@.len() == 32,
                forall|j: int| 0 <= j < i ==> self.key@[j] == other.key@[j],
            decreases 32 - i,
        {
            if self.key[i] != other.key[i] {
                return false;
            }
            i = i + 1;
        }
        proof {
            assert(self.key@ =~= other.key@);
        }
        true
    }
}

/// The secret key of this node: 32 bytes of ed25519 secret.
pub struct SecretKey {
    secret: [u8; 32],
}

impl View for SecretKey {
    type V = Seq<u8>;

    closed spec fn view(&self) -> Seq<u8> {
        self.secret@
    }
}

impl SecretKey {
    /// A fresh key from the operating system's random source.
    pub fn generate() -> (r: SecretKey)
        ensures
            r@.len() == 32,
    {
        SecretKey { secret: random_secret() }
    }

    /// The key whose secret is `bytes`.
    pub fn from_bytes(bytes: &[u8; 32]) -> (r: SecretKey)
        ensures
            r@ == bytes@,
    {
        SecretKey { secret: *bytes }
    }

    /// The 32 secret bytes.
    pub fn to_bytes(&self) -> (r: [u8; 32])
        ensures
            r@ == self@,
    {
        self.secret
    }

    /// The identity that peers see for this key. It is taken from the secret
    /// key as is, without the point check of `PeerIdentity::from_bytes`.
    pub fn public(&self) -> (r: PeerIdentity)
        ensures
            r@ == public_key_of(self@),
    {
        PeerIdentity { key: derive_public_key(&self.secret) }
    }

    /// The key as a PKCS#8 PEM document.
    pub fn to_pkcs8_pem(&self) -> (r: Option<String>)
        ensures
            r matches Some(s) ==> pkcs8_pem_of(self@) == Some(s@),
            r is None ==> pkcs8_pem_of(self@) is None,
    {
        encode_pkcs8_pem(&self.secret)
    }

    /// The key held by a PKCS#8 PEM document.
    pub fn from_pkcs8_pem(pem: &str) -> (r: Option<SecretKey>)
        ensures
            r matches Some(k) ==> pkcs8_secret_of(pem@) == Some(k@),
            r is None ==> pkcs8_secret_of(pem@) is None,
    {
        match decode_pkcs8_pem(pem) {
            Some(secret) => Some(SecretKey { secret }),
            None => None,
        }
    }
}

} // verus!
