//! Ephemeral X25519 key agreement and the AES-256-GCM record channel.
//!
//! A record is `nonce(12) ‖ ciphertext ‖ tag(16)`, with a fresh random nonce
//! for every record, under the key `SHA-256(shared_secret)`.
use vstd::prelude::*;
use aes_gcm::aead::{Aead, AeadCore, KeyInit};
use sha2::Digest;

verus! {

/// Bytes of an AES-GCM nonce.
pub const NONCE_LEN: usize = 12;

/// Bytes of an AES-GCM tag.
pub const TAG_LEN: usize = 16;

/// Bytes of an AES-256 key.
pub const KEY_LEN: usize = 32;

/// Longest plaintext AES-GCM encrypts: 2^36 bytes.
pub const MAX_PLAINTEXT_LEN: u64 = 0x10_0000_0000;

/// The SHA-256 digest of `data`.
pub uninterp spec fn sha256_digest(data: Seq<u8>) -> Seq<u8>;

/// AES-256-GCM encryption of `plaintext` (no associated data): ciphertext then tag.
pub uninterp spec fn aes_gcm_seal(key: Seq<u8>, nonce: Seq<u8>, plaintext: Seq<u8>) -> Seq<u8>;

/// AES-256-GCM decryption of `sealed` (no associated data); `None` when the tag
/// does not match.
pub uninterp spec fn aes_gcm_open(key: Seq<u8>, nonce: Seq<u8>, sealed: Seq<u8>) -> Option<Seq<u8>>;

#[verifier::external_type_specification]
#[verifier::external_body]
pub struct ExEphemeralSecret(x25519_dalek::EphemeralSecret);

#[verifier::external_type_specification]
#[verifier::external_body]
pub struct ExPublicKey(x25519_dalek::PublicKey);

/// Relies on `sha2::Sha256::digest`: 32 bytes that depend on the input alone.
#[verifier::external_body]
fn sha256(data: &[u8]) -> (r: Vec<u8>)
    ensures
        r@ == sha256_digest(data@),
        r@.len() == KEY_LEN,
{
    sha2::Sha256::digest(data).to_vec()
}

/// Relies on `AeadCore::generate_nonce` with `aead::OsRng`: 12 random bytes.
#[verifier::external_body]
fn random_nonce() -> (r: Vec<u8>)
    ensures
        r@.len() == NONCE_LEN,
{
    aes_gcm::Aes256Gcm::generate_nonce(&mut aes_gcm::aead::OsRng).to_vec()
}

/// Relies on `Aes256Gcm::new` and `Aead::encrypt`: the plaintext encrypted,
/// with the 16-byte tag appended; it fails only on a plaintext longer than
/// `P_MAX` (2^36 bytes).
#[verifier::external_body]
fn seal(key: &[u8], nonce: &[u8], plaintext: &[u8]) -> (r: Option<Vec<u8>>)
    requires
        key@.len() == KEY_LEN,
        nonce@.len() == NONCE_LEN,
    ensures
        r matches Some(c) ==> c@ == aes_gcm_seal(key@, nonce@, plaintext@) && c@.len()
            == plaintext@.len() + TAG_LEN,
        r is Some <==> plaintext@.len() <= MAX_PLAINTEXT_LEN,
{
    let cipher = aes_gcm::Aes256Gcm::new(aes_gcm::Key::<aes_gcm::Aes256Gcm>::from_slice(key));
    cipher.encrypt(aes_gcm::Nonce::from_slice(nonce), plaintext).ok()
}

/// Relies on `Aes256Gcm::new` and `Aead::decrypt`: the plaintext when the tag
/// matches; input shorter than the 16-byte tag is refused; what `encrypt`
/// produced under the same key and nonce decrypts to itself.
#[verifier::external_body]
fn open(key: &[u8], nonce: &[u8], sealed: &[u8]) -> (r: Option<Vec<u8>>)
    requires
        key@.len() == KEY_LEN,
        nonce@.len() == NONCE_LEN,
    ensures
        r matches Some(p) ==> aes_gcm_open(key@, nonce@, sealed@) == Some(p@),
        r is None ==> aes_gcm_open(key@, nonce@, sealed@) is None,
        r matches Some(q) ==> forall|p: Seq<u8>|
            p.len() <= MAX_PLAINTEXT_LEN && #[trigger] aes_gcm_seal(key@, nonce@, p) == sealed@
                ==> q@ == p,
        r is None ==> forall|p: Seq<u8>|
            p.len() <= MAX_PLAINTEXT_LEN ==> #[trigger] aes_gcm_seal(key@, nonce@, p) != sealed@,
        sealed@.len() < TAG_LEN ==> r is None,
{
    let cipher = aes_gcm::Aes256Gcm::new(aes_gcm::Key::<aes_gcm::Aes256Gcm>::from_slice(key));
    cipher.decrypt(aes_gcm::Nonce::from_slice(nonce), sealed).ok()
}

/// Relies on `EphemeralSecret::random_from_rng` with `aead::OsRng`.
#[verifier::external_body]
fn random_secret() -> (r: x25519_dalek::EphemeralSecret) {
    x25519_dalek::EphemeralSecret::random_from_rng(aes_gcm::aead::OsRng)
}

/// Relies on `PublicKey::from(&EphemeralSecret)`.
#[verifier::external_body]
fn public_of(secret: &x25519_dalek::EphemeralSecret) -> (r: x25519_dalek::PublicKey) {
    x25519_dalek::PublicKey::from(secret)
}

/// Relies on `PublicKey::to_bytes`.
#[verifier::external_body]
fn public_bytes(key: &x25519_dalek::PublicKey) -> (r: [u8; 32]) {
    key.to_bytes()
}

/// Relies on `PublicKey::from([u8; 32])`.
#[verifier::external_body]
fn public_from_bytes(bytes: [u8; 32]) -> (r: x25519_dalek::PublicKey) {
    x25519_dalek::PublicKey::from(bytes)
}

/// Relies on `EphemeralSecret::diffie_hellman` and `SharedSecret::to_bytes`.
#[verifier::external_body]
fn diffie_hellman(secret: x25519_dalek::EphemeralSecret, their: &x25519_dalek::PublicKey) -> (r: [u8; 32]) {
    secret.diffie_hellman(their).to_bytes()
}

/// Failures of the crypto channel.
#[derive(Debug, Clone, Copy, PartialEq, Eq, Structural)]
pub enum CryptoError {
    /// The cipher refused the plaintext.
    EncryptionFailed,
    /// The record is too short for a nonce, or its tag does not match.
    DecryptionFailed,
    /// A public key is not 32 bytes long.
    InvalidPublicKey,
}

/// `record` is `nonce ‖ AES-256-GCM_key(plaintext)` for the nonce it starts with.
pub open spec fn sealed_record(key: Seq<u8>, plaintext: Seq<u8>, record: Seq<u8>) -> bool {
    &&& record.len() >= NONCE_LEN
    &&& record.subrange(NONCE_LEN as int, record.len() as int) == aes_gcm_seal(
        key,
        record.subrange(0, NONCE_LEN as int),
        plaintext,
    )
}

/// The plaintext that decrypting `record` under `key` gives, if any.
pub open spec fn opened_record(key: Seq<u8>, record: Seq<u8>) -> Option<Seq<u8>> {
    if record.len() < NONCE_LEN {
        None
    } else {
        aes_gcm_open(
            key,
            record.subrange(0, NONCE_LEN as int),
            record.subrange(NONCE_LEN as int, record.len() as int),
        )
    }
}

/// The symmetric channel of one connection.
#[derive(Debug)]
pub struct CryptoSession {
    key: Vec<u8>,
}

impl CryptoSession {
    /// The AES-256 key.
    pub closed spec fn key(&self) -> Seq<u8> {
        self.key@
    }

    pub closed spec fn wf(&self) -> bool {
        self.key@.len() == KEY_LEN
    }

    /// The channel keyed with `SHA-256(shared_secret)`.
    pub fn from_shared_secret(shared_secret: &[u8]) -> (r: Result<CryptoSession, CryptoError>)
        ensures
            r matches Ok(s) && s.wf() && s.key() == sha256_digest(shared_secret@),
    {
        let key = sha256(shared_secret);
        Ok(CryptoSession { key })
    }

    /// Encrypts `plaintext` into a record under a fresh random nonce.
    pub fn encrypt(&self, plaintext: &[u8]) -> (r: Result<Vec<u8>, CryptoError>)
        requires
            self.wf(),
        ensures
            r matches Ok(rec) ==> sealed_record(self.key(), plaintext@, rec@) && rec@.len()
                == NONCE_LEN + plaintext@.len() + TAG_LEN,
            r matches Err(e) ==> e == CryptoError::EncryptionFailed,
            r is Ok <==> plaintext@.len() <= MAX_PLAINTEXT_LEN,
    {
        let nonce = random_nonce();
        let sealed = match seal(self.key.as_slice(), nonce.as_slice(), plaintext) {
            Some(c) => c,
            None => {
                return Err(CryptoError::EncryptionFailed);
            },
        };
        let mut out = nonce;
        let ghost n = out@;
        out.extend_from_slice(sealed.as_slice());
        assert(out@.subrange(0, NONCE_LEN as int) =~= n);
        assert(out@.subrange(NONCE_LEN as int, out@.len() as int) =~= sealed@);
        Ok(out)
    }

    /// Decrypts a record. A record shorter than a nonce and a tag, or whose tag
    /// does not match, fails; a record that this key sealed gives back its plaintext.
    pub fn decrypt(&self, data: &[u8]) -> (r: Result<Vec<u8>, CryptoError>)
        requires
            self.wf(),
        ensures
            r matches Ok(p) ==> opened_record(self.key(), data@) == Some(p@),
            r matches Err(e) ==> e == CryptoError::DecryptionFailed && opened_record(
                self.key(),
                data@,
            ) is None,
            data@.len() < NONCE_LEN + TAG_LEN ==> r == Err::<Vec<u8>, CryptoError>(
                CryptoError::DecryptionFailed,
            ),
            forall|p: Seq<u8>|
                p.len() <= MAX_PLAINTEXT_LEN && #[trigger] sealed_record(self.key(), p, data@) ==> (
                r matches Ok(q) && q@ == p),
    {
        if data.len() < NONCE_LEN {
            return Err(CryptoError::DecryptionFailed);
        }
        let mut nonce: Vec<u8> = Vec::new();
        let mut body: Vec<u8> = Vec::new();
        let mut i: usize = 0;
        while i < data.len()
            invariant
                i <= data@.len(),
                data@.len() >= NONCE_LEN,
                i <= NONCE_LEN ==> nonce@ == data@.subrange(0, i as int) && body@.len() == 0,
                i > NONCE_LEN ==> nonce@ == data@.subrange(0, NONCE_LEN as int) && body@
                    == data@.subrange(NONCE_LEN as int, i as int),
            decreases data@.len() - i,
        {
            if i < NONCE_LEN {
                nonce.push(data[i]);
            } else {
                body.push(data[i]);
            }
            i = i + 1;
            assert(i <= NONCE_LEN ==> nonce@ =~= data@.subrange(0, i as int));
            assert(i > NONCE_LEN ==> body@ =~= data@.subrange(NONCE_LEN as int, i as int));
        }
        if data.len() == NONCE_LEN {
            assert(body@ =~= data@.subrange(NONCE_LEN as int, data@.len() as int));
        }
        match open(self.key.as_slice(), nonce.as_slice(), body.as_slice()) {
            Some(p) => Ok(p),
            None => Err(CryptoError::DecryptionFailed),
        }
    }
}

/// One side's ephemeral key pair.
pub struct KeyExchange {
    secret: x25519_dalek::EphemeralSecret,
    public: x25519_dalek::PublicKey,
}

impl KeyExchange {
    /// A fresh random key pair.
    pub fn new() -> (r: KeyExchange) {
        let secret = random_secret();
        let public = public_of(&secret);
        KeyExchange { secret, public }
    }

    /// The public half, to send to the peer.
    pub fn public_key(&self) -> (r: &x25519_dalek::PublicKey) {
        &self.public
    }

    /// The public half as bytes.
    pub fn public_key_bytes(&self) -> (r: [u8; 32]) {
        public_bytes(&self.public)
    }

    /// The X25519 shared secret with the peer's public key; the secret half
    /// is used up.
    pub fn compute_shared_secret(self, their_public: &x25519_dalek::PublicKey) -> (r: [u8; 32]) {
        diffie_hellman(self.secret, their_public)
    }
}

/// The peer's public key from the bytes of its `KeyExchange` message.
pub fn public_key_from_slice(bytes: &[u8]) -> (r: Result<x25519_dalek::PublicKey, CryptoError>)
    ensures
        r is Err <==> bytes@.len() != 32,
        r matches Err(e) ==> e == CryptoError::InvalidPublicKey,
{
    if bytes.len() != 32 {
        return Err(CryptoError::InvalidPublicKey);
    }
    let mut a: [u8; 32] = [0u8; 32];
    let mut i: usize = 0;
    while i < 32
        invariant
            i <= 32,
            bytes@.len() == 32,
        decreases 32 - i,
    {
        a[i] = bytes[i];
        i = i + 1;
    }
    Ok(public_from_bytes(a))
}

} // verus!
