//! Hashes, authentication codes and authenticated encryption.
use hmac::Mac;
use sha2::Digest;
use vstd::prelude::*;

verus! {

/// The length of an encryption key.
pub const KEY_SIZE: usize = 32;

/// The length of a nonce of AES-GCM.
pub const NONCE_SIZE: usize = 12;

/// The longest plaintext that AES-GCM takes.
pub const PLAINTEXT_LIMIT: u64 = 68719476736;

/// The SHA-256 digest of data.
pub uninterp spec fn sha256(data: Seq<u8>) -> Seq<u8>;

/// `sha2::Sha256`: the digest of the data, 32 bytes long.
#[verifier::external_body]
pub(crate) fn sha256_digest(data: &[u8]) -> (r: [u8; 32])
    ensures
        r@ == sha256(data@),
{
    sha2::Sha256::digest(data).into()
}

/// The key of an HMAC with SHA-256, made as long as a block of SHA-256: a longer one is hashed,
/// and zeros fill up the rest.
pub open spec fn hmac_key(key: Seq<u8>) -> Seq<u8> {
    let short = if key.len() > 64 {
        sha256(key)
    } else {
        key
    };
    Seq::new(64, |i: int| if i < short.len() {
        short[i]
    } else {
        0u8
    })
}

/// The HMAC with SHA-256 of data under a key.
pub open spec fn hmac_sha256(key: Seq<u8>, data: Seq<u8>) -> Seq<u8> {
    let outer = hmac_key(key).map_values(|b: u8| b ^ 0x5cu8);
    let inner = hmac_key(key).map_values(|b: u8| b ^ 0x36u8);
    sha256(outer + sha256(inner + data))
}

/// `hmac::digest::InvalidLength`, the refusal of a key.
#[verifier::external_type_specification]
#[verifier::external_body]
pub struct ExInvalidLength(hmac::digest::InvalidLength);

/// `hmac::Hmac` over `sha2::Sha256`: the authentication code of the data under the key, 32 bytes
/// long, which is two digests, one of the other. Keys of every length are taken.
#[verifier::external_body]
pub(crate) fn hmac_code(key: &[u8], data: &[u8]) -> (r: Result<
    Vec<u8>,
    hmac::digest::InvalidLength,
>)
    ensures
        r is Ok,
        r->Ok_0@ == hmac_sha256(key@, data@),
        r->Ok_0@.len() == 32,
{
    let mut mac = <hmac::Hmac<sha2::Sha256> as Mac>::new_from_slice(key)?;
    mac.update(data);
    Ok(mac.finalize().into_bytes().to_vec())
}

/// What AES-256-GCM makes of a plaintext under a key and a nonce: the ciphertext and its tag.
pub uninterp spec fn aes_sealed(key: Seq<u8>, nonce: Seq<u8>, plaintext: Seq<u8>) -> Seq<u8>;

/// The plaintext of a ciphertext with its tag under a key and a nonce, if the tag is right.
pub uninterp spec fn aes_opened(key: Seq<u8>, nonce: Seq<u8>, ciphertext: Seq<u8>) -> Option<
    Seq<u8>,
>;

/// `aes_gcm::Error`, the refusal of AES-GCM, which carries no reason.
#[verifier::external_type_specification]
#[verifier::external_body]
pub struct ExAesError(aes_gcm::Error);

/// `aes_gcm::Aes256Gcm::encrypt`: the ciphertext and its tag of 16 bytes. A plaintext up to the
/// limit is taken, a longer one refused. Decryption under the same key and nonce gives the
/// plaintext back.
#[verifier::external_body]
pub(crate) fn aes_encrypt(
    key: &[u8; KEY_SIZE],
    nonce: &[u8; NONCE_SIZE],
    plaintext: &[u8],
) -> (r: Result<Vec<u8>, aes_gcm::Error>)
    ensures
        r is Ok <==> plaintext@.len() <= PLAINTEXT_LIMIT,
        r matches Ok(sealed) ==> sealed@ == aes_sealed(key@, nonce@, plaintext@) && aes_opened(
            key@,
            nonce@,
            sealed@,
        ) == Some(plaintext@),
{
    let cipher = <aes_gcm::Aes256Gcm as aes_gcm::KeyInit>::new(
        aes_gcm::Key::<aes_gcm::Aes256Gcm>::from_slice(key),
    );
    aes_gcm::aead::Aead::encrypt(&cipher, aes_gcm::Nonce::from_slice(nonce), plaintext)
}

/// `aes_gcm::Aes256Gcm::decrypt`: the plaintext, or an error where the tag does not belong to
/// the ciphertext under the key and the nonce.
#[verifier::external_body]
pub(crate) fn aes_decrypt(
    key: &[u8; KEY_SIZE],
    nonce: &[u8; NONCE_SIZE],
    ciphertext: &[u8],
) -> (r: Result<Vec<u8>, aes_gcm::Error>)
    ensures
        match r {
            Ok(plaintext) => aes_opened(key@, nonce@, ciphertext@) == Some(plaintext@),
            Err(_) => aes_opened(key@, nonce@, ciphertext@) is None,
        },
{
    let cipher = <aes_gcm::Aes256Gcm as aes_gcm::KeyInit>::new(
        aes_gcm::Key::<aes_gcm::Aes256Gcm>::from_slice(key),
    );
    aes_gcm::aead::Aead::decrypt(&cipher, aes_gcm::Nonce::from_slice(nonce), ciphertext)
}

/// `rand::thread_rng` and `RngCore::fill_bytes`: random bytes, of which nothing is known.
#[verifier::external_body]
pub(crate) fn random_nonce() -> (r: [u8; NONCE_SIZE]) {
    let mut nonce = [0u8; NONCE_SIZE];
    rand::RngCore::fill_bytes(&mut rand::thread_rng(), &mut nonce);
    nonce
}

} // verus!
