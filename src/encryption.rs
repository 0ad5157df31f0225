use vstd::prelude::*;

use aes_gcm::aead::{Aead, AeadCore, KeyInit, OsRng};
use aes_gcm::{Aes256Gcm, Key, Nonce};

verus! {

#[verifier::external_type_specification]
#[verifier::external_body]
pub struct ExAeadError(aes_gcm::Error);

/// Largest plaintext, in bytes, that AES-GCM accepts.
pub const MAX_PLAINTEXT: u64 = 0x10_0000_0000;

/// AES-256-GCM sealing of `plaintext` under `key` and `nonce`, with no
/// associated data: the ciphertext followed by the 16-byte tag.
pub uninterp spec fn gcm_seal(key: Seq<u8>, nonce: Seq<u8>, plaintext: Seq<u8>) -> Seq<u8>;

/// Relies on `Aead::encrypt` of aes-gcm's `Aes256Gcm`: a postfix 16-byte tag,
/// and failure exactly for a plaintext over `MAX_PLAINTEXT` bytes.
#[verifier::external_body]
fn gcm_encrypt(key: &[u8; 32], nonce: &[u8], plaintext: &[u8]) -> (r: Result<Vec<u8>, aes_gcm::Error>)
    requires
        nonce@.len() == 12,
    ensures
        r matches Ok(c) ==> c@ == gcm_seal(key@, nonce@, plaintext@),
        r matches Ok(c) ==> c@.len() == plaintext@.len() + 16,
        r is Ok <==> plaintext@.len() <= MAX_PLAINTEXT,
{
    Aes256Gcm::new(Key::<Aes256Gcm>::from_slice(key)).encrypt(Nonce::from_slice(nonce), plaintext)
}

/// Relies on `Aead::decrypt` of aes-gcm's `Aes256Gcm`: it succeeds exactly on
/// a ciphertext whose tag authenticates, and then returns what was sealed.
#[verifier::external_body]
fn gcm_decrypt(key: &[u8; 32], nonce: &[u8], ciphertext: &[u8]) -> (r: Result<Vec<u8>, aes_gcm::Error>)
    requires
        nonce@.len() == 12,
    ensures
        r matches Ok(q) ==> gcm_seal(key@, nonce@, q@) == ciphertext@,
        r matches Ok(q) ==> forall|p: Seq<u8>|
            p.len() <= MAX_PLAINTEXT && #[trigger] gcm_seal(key@, nonce@, p) == ciphertext@ ==> q@ == p,
        r is Err ==> forall|p: Seq<u8>|
            p.len() <= MAX_PLAINTEXT ==> #[trigger] gcm_seal(key@, nonce@, p) != ciphertext@,
{
    Aes256Gcm::new(Key::<Aes256Gcm>::from_slice(key)).decrypt(Nonce::from_slice(nonce), ciphertext)
}

/// Relies on `AeadCore::generate_nonce` with `OsRng`: a fresh random 12-byte
/// nonce.
#[verifier::external_body]
fn random_nonce() -> (r: Vec<u8>)
    ensures
        r@.len() == 12,
{
    Aes256Gcm::generate_nonce(&mut OsRng).to_vec()
}

/// Failures of the cipher.
#[derive(Debug, Clone, Copy, PartialEq, Eq)]
pub enum CryptoError {
    /// The plaintext is too long to be sealed.
    EncryptionFailed,
    /// The nonce is not 12 bytes long, or the tag does not authenticate.
    DecryptionFailed,
}

/// A sealed message: ciphertext with its tag appended, and the nonce used.
#[derive(Debug, Clone)]
pub struct EncryptedData {
    pub ciphertext: Vec<u8>,
    pub nonce: Vec<u8>,
}

/// Authenticated symmetric encryption under one 256-bit key.
#[derive(Clone)]
pub struct CryptoManager {
    key: [u8; 32],
}

impl CryptoManager {
    pub closed spec fn key(&self) -> Seq<u8> {
        self.key@
    }

    /// `data` is the sealing of `plaintext` under this key.
    pub open spec fn seals(&self, plaintext: Seq<u8>, data: EncryptedData) -> bool {
        &&& data.nonce@.len() == 12
        &&& data.ciphertext@ == gcm_seal(self.key(), data.nonce@, plaintext)
    }

    pub fn new(key: &[u8; 32]) -> (r: Result<CryptoManager, CryptoError>)
        ensures
            r matches Ok(m) && m.key() == key@,
    {
        Ok(CryptoManager { key: *key })
    }

    /// Seals `plaintext` under a fresh random nonce.
    pub fn encrypt(&self, plaintext: &[u8]) -> (r: Result<EncryptedData, CryptoError>)
        ensures
            r matches Ok(d) ==> self.seals(plaintext@, d),
            r matches Ok(d) ==> d.ciphertext@.len() == plaintext@.len() + 16,
            r is Ok <==> plaintext@.len() <= MAX_PLAINTEXT,
            r is Err ==> r == Err::<EncryptedData, CryptoError>(CryptoError::EncryptionFailed),
    {
        let nonce = random_nonce();
        match gcm_encrypt(&self.key, nonce.as_slice(), plaintext) {
            Ok(ciphertext) => Ok(EncryptedData { ciphertext, nonce }),
            Err(_) => Err(CryptoError::EncryptionFailed),
        }
    }

    /// Opens `data`. Whatever `encrypt` sealed comes back unchanged; a nonce of
    /// the wrong length, or a ciphertext that is not a sealing under this key,
    /// is refused.
    pub fn decrypt(&self, data: &EncryptedData) -> (r: Result<Vec<u8>, CryptoError>)
        ensures
            r matches Ok(p) ==> self.seals(p@, *data),
            forall|p: Seq<u8>|
                p.len() <= MAX_PLAINTEXT && #[trigger] self.seals(p, *data)
                    ==> (r matches Ok(q) && q@ == p),
            data.nonce@.len() != 12 ==> r == Err::<Vec<u8>, CryptoError>(CryptoError::DecryptionFailed),
            r is Err ==> r == Err::<Vec<u8>, CryptoError>(CryptoError::DecryptionFailed),
    {
        if data.nonce.len() != 12 {
            return Err(CryptoError::DecryptionFailed);
        }
        match gcm_decrypt(&self.key, data.nonce.as_slice(), data.ciphertext.as_slice()) {
            Ok(plaintext) => Ok(plaintext),
            Err(_) => Err(CryptoError::DecryptionFailed),
        }
    }
}

} // verus!
