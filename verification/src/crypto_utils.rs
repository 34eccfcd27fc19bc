//! Sealing and opening bytes with AES-256-GCM, for rewards that lock a file
//! by encrypting it where it stands.

use ring::aead::{Aad, LessSafeKey, Nonce, UnboundKey, AES_256_GCM};
use vstd::prelude::*;

verus! {

/// A key for AES-256: 256 bits.
pub type Key = [u8; 32];

/// The nonce of one sealing: 96 bits.
pub type NonceBytes = [u8; 12];

/// The bytes that sealing adds to the data: the authentication tag.
pub const TAG_LEN: usize = 16;

/// Why a cryptographic step failed. The underlying library gives no reason.
#[derive(Clone, Copy, Debug, PartialEq, Eq, Structural)]
pub enum CryptoError {
    /// The system's random number generator gave no key.
    Randomness,
    /// The data could not be sealed.
    Sealing,
    /// The data is not what was sealed with this key and nonce.
    Opening,
}

/// The error of ring, which says nothing of its cause.
#[verifier::external_type_specification]
#[verifier::external_body]
pub struct ExUnspecified(ring::error::Unspecified);

/// What AES-256-GCM makes of `data` under `key` and `nonce`, with no
/// associated data: the ciphertext followed by the tag, or `None` where the
/// library refuses to seal.
pub uninterp spec fn sealed(key: Seq<u8>, nonce: Seq<u8>, data: Seq<u8>) -> Option<Seq<u8>>;

/// What AES-256-GCM recovers from `data` under `key` and `nonce`, with no
/// associated data: the plaintext, or `None` where `data` does not
/// authenticate.
pub uninterp spec fn opened(key: Seq<u8>, nonce: Seq<u8>, data: Seq<u8>) -> Option<Seq<u8>>;

/// A fresh key from the system: ring's `rand::SystemRandom` and
/// `rand::generate`. Nothing is claimed of the bytes.
#[verifier::external_body]
fn random_key() -> (outcome: Result<Key, ring::error::Unspecified>) {
    let generator = ring::rand::SystemRandom::new();
    ring::rand::generate::<[u8; 32]>(&generator).map(|random| random.expose())
}

/// Seals in place: ring's `UnboundKey::new` for `AES_256_GCM`,
/// `LessSafeKey::new`, `Nonce::assume_unique_for_key` and
/// `LessSafeKey::seal_in_place_append_tag` with empty associated data.
///
/// On success `data` holds the named result, which is the old length and a
/// tag of sixteen bytes long. On failure nothing was appended.
#[verifier::external_body]
fn seal_in_place(key: &Key, nonce: NonceBytes, data: &mut Vec<u8>) -> (outcome: Result<
    (),
    ring::error::Unspecified,
>)
    ensures
        outcome is Ok <==> sealed(key@, nonce@, old(data)@) is Some,
        outcome is Ok ==> final(data)@ == sealed(key@, nonce@, old(data)@).unwrap(),
        outcome is Ok ==> final(data)@.len() == old(data)@.len() + 16,
        outcome is Err ==> final(data)@.len() == old(data)@.len(),
{
    let sealing_key = LessSafeKey::new(UnboundKey::new(&AES_256_GCM, key)?);
    sealing_key.seal_in_place_append_tag(Nonce::assume_unique_for_key(nonce), Aad::empty(), data)
}

/// Opens in place: ring's `UnboundKey::new` for `AES_256_GCM`,
/// `LessSafeKey::new`, `Nonce::assume_unique_for_key` and
/// `LessSafeKey::open_in_place` with empty associated data.
///
/// The length of `data` stays. On success `data` was at least a tag long,
/// and all of it but the last sixteen bytes is the named plaintext.
#[verifier::external_body]
fn open_in_place(key: &Key, nonce: NonceBytes, data: &mut Vec<u8>) -> (outcome: Result<
    (),
    ring::error::Unspecified,
>)
    ensures
        final(data)@.len() == old(data)@.len(),
        outcome is Ok <==> opened(key@, nonce@, old(data)@) is Some,
        outcome is Ok ==> old(data)@.len() >= 16,
        outcome is Ok ==> final(data)@.take(old(data)@.len() - 16) == opened(
            key@,
            nonce@,
            old(data)@,
        ).unwrap(),
{
    let opening_key = LessSafeKey::new(UnboundKey::new(&AES_256_GCM, key)?);
    opening_key.open_in_place(Nonce::assume_unique_for_key(nonce), Aad::empty(), data).map(|_| ())
}

/// The nonce that [`encrypt`] and [`decrypt`] use: all zero.
pub open spec fn spec_fixed_nonce() -> Seq<u8> {
    Seq::new(12, |i: int| 0u8)
}

/// The nonce that [`encrypt`] and [`decrypt`] use: all zero.
pub fn fixed_nonce() -> (nonce: NonceBytes)
    ensures
        nonce@ == spec_fixed_nonce(),
{
    let nonce: NonceBytes = [0u8; 12];
    assert(nonce@ =~= spec_fixed_nonce());
    nonce
}

/// Makes a fresh random key: [`key_from_system`] of what the system answers.
pub fn make_key() -> (outcome: Result<Key, CryptoError>)
    ensures
        outcome matches Err(error) ==> error == CryptoError::Randomness,
{
    key_from_system(random_key())
}

/// What the system's answer to a request for a key comes to: the key that
/// it gave, untouched, or the error that it gave none.
pub fn key_from_system(answer: Result<Key, ring::error::Unspecified>) -> (outcome: Result<
    Key,
    CryptoError,
>)
    ensures
        answer matches Ok(key) ==> outcome == Ok::<Key, CryptoError>(key),
        answer is Err ==> outcome == Err::<Key, CryptoError>(CryptoError::Randomness),
{
    match answer {
        Ok(key) => Ok(key),
        Err(_) => Err(CryptoError::Randomness),
    }
}

/// Seals `data` in place under `key` and `nonce`: afterwards it holds the
/// ciphertext and, behind it, the tag. A nonce must never be used twice
/// with one key.
pub fn encrypt_with_nonce(key: &Key, nonce: NonceBytes, data: &mut Vec<u8>) -> (outcome: Result<
    (),
    CryptoError,
>)
    ensures
        outcome is Ok <==> sealed(key@, nonce@, old(data)@) is Some,
        outcome is Ok ==> final(data)@ == sealed(key@, nonce@, old(data)@).unwrap(),
        outcome is Ok ==> final(data)@.len() == old(data)@.len() + TAG_LEN,
        outcome matches Err(error) ==> error == CryptoError::Sealing && final(data)@.len() == old(
            data,
        )@.len(),
{
    match seal_in_place(key, nonce, data) {
        Ok(()) => Ok(()),
        Err(_) => Err(CryptoError::Sealing),
    }
}

/// Opens `data` in place under `key` and `nonce`: afterwards it holds the
/// plaintext alone, the tag cut off. Data that does not authenticate is an
/// error; what `data` then holds is of no use, though as long as before.
pub fn decrypt_with_nonce(key: &Key, nonce: NonceBytes, data: &mut Vec<u8>) -> (outcome: Result<
    (),
    CryptoError,
>)
    ensures
        outcome is Ok <==> opened(key@, nonce@, old(data)@) is Some,
        outcome is Ok ==> final(data)@ == opened(key@, nonce@, old(data)@).unwrap(),
        outcome is Ok ==> final(data)@.len() + TAG_LEN == old(data)@.len(),
        outcome matches Err(error) ==> error == CryptoError::Opening && final(data)@.len() == old(
            data,
        )@.len(),
{
    match open_in_place(key, nonce, data) {
        Ok(()) => {
            let plain_len = data.len() - TAG_LEN;
            data.truncate(plain_len);
            Ok(())
        },
        Err(_) => Err(CryptoError::Opening),
    }
}

/// Seals `data` in place under `key`, see [`encrypt_with_nonce`].
///
/// The nonce is the same every time: all zero. Two sealings under one key
/// therefore share their nonce, which AES-GCM does not allow: whoever holds
/// both results learns about the plaintexts and can forge others. Use this
/// for one sealing per key at most.
pub fn encrypt(key: &Key, data: &mut Vec<u8>) -> (outcome: Result<(), CryptoError>)
    ensures
        outcome is Ok <==> sealed(key@, spec_fixed_nonce(), old(data)@) is Some,
        outcome is Ok ==> final(data)@ == sealed(key@, spec_fixed_nonce(), old(data)@).unwrap(),
        outcome is Ok ==> final(data)@.len() == old(data)@.len() + TAG_LEN,
        outcome matches Err(error) ==> error == CryptoError::Sealing && final(data)@.len() == old(
            data,
        )@.len(),
{
    encrypt_with_nonce(key, fixed_nonce(), data)
}

/// Opens in place what [`encrypt`] sealed under `key`, see
/// [`decrypt_with_nonce`].
pub fn decrypt(key: &Key, data: &mut Vec<u8>) -> (outcome: Result<(), CryptoError>)
    ensures
        outcome is Ok <==> opened(key@, spec_fixed_nonce(), old(data)@) is Some,
        outcome is Ok ==> final(data)@ == opened(key@, spec_fixed_nonce(), old(data)@).unwrap(),
        outcome is Ok ==> final(data)@.len() + TAG_LEN == old(data)@.len(),
        outcome matches Err(error) ==> error == CryptoError::Opening && final(data)@.len() == old(
            data,
        )@.len(),
{
    decrypt_with_nonce(key, fixed_nonce(), data)
}

} // verus!
