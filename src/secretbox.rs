//! Sealing and opening messages.
use vstd::prelude::*;

use crate::key::{valid_lengths, KeyMaterial};
use crate::pad::{strip_prefix, wipe, with_prefix, with_zero, zeros};
use crate::primitive::{
    box_tail, crypto_secretbox, crypto_secretbox_open, secretbox_of, secretbox_open_of,
};
use crate::{SecretboxError, BOX_ZERO_BYTES, TAG_LEN, ZERO_BYTES};

verus! {

/// The bytes of a `Result` that holds a buffer.
pub open spec fn bytes_of(r: Result<Vec<u8>, SecretboxError>) -> Result<Seq<u8>, SecretboxError> {
    match r {
        Ok(v) => Ok(v@),
        Err(e) => Err(e),
    }
}

/// What sealing `plaintext` under `nonce` and `key` gives: the tag and the
/// ciphertext, or `InvalidLength`.
pub open spec fn seal_spec(plaintext: Seq<u8>, nonce: Seq<u8>, key: Seq<u8>) -> Result<
    Seq<u8>,
    SecretboxError,
> {
    if !valid_lengths(key, nonce) {
        Err(SecretboxError::InvalidLength)
    } else {
        Ok(box_tail(zeros(ZERO_BYTES as nat) + plaintext, nonce, key))
    }
}

/// What opening `ciphertext` under `nonce` and `key` gives: the plaintext, or
/// why it was refused.
pub open spec fn open_spec(ciphertext: Seq<u8>, nonce: Seq<u8>, key: Seq<u8>) -> Result<
    Seq<u8>,
    SecretboxError,
> {
    if !valid_lengths(key, nonce) {
        Err(SecretboxError::InvalidLength)
    } else if ciphertext.len() < TAG_LEN {
        Err(SecretboxError::InputTooShort)
    } else {
        match secretbox_open_of(zeros(BOX_ZERO_BYTES as nat) + ciphertext, nonce, key) {
            Some(m) => Ok(m.subrange(ZERO_BYTES as int, m.len() as int)),
            None => Err(SecretboxError::AuthenticationFailed),
        }
    }
}

/// Sealing is deterministic: two results that `seal` gives for one
/// plaintext, nonce and key are the same bytes, or the same error.
pub proof fn lemma_seal_deterministic(
    plaintext: Seq<u8>,
    nonce: Seq<u8>,
    key: Seq<u8>,
    first: Result<Seq<u8>, SecretboxError>,
    second: Result<Seq<u8>, SecretboxError>,
)
    requires
        first == seal_spec(plaintext, nonce, key),
        second == seal_spec(plaintext, nonce, key),
    ensures
        first == second,
{
}

/// Encrypts and authenticates `plaintext` under `nonce` and `key`, returning
/// the tag followed by the ciphertext.
///
/// The caller must never use one nonce for two messages under one key.
pub fn seal(plaintext: &[u8], nonce: &[u8], key: &[u8]) -> (r: Result<Vec<u8>, SecretboxError>)
    requires
        plaintext@.len() + ZERO_BYTES <= usize::MAX,
    ensures
        bytes_of(r) == seal_spec(plaintext@, nonce@, key@),
        r is Ok <==> valid_lengths(key@, nonce@),
        !valid_lengths(key@, nonce@) ==> r == Err::<Vec<u8>, SecretboxError>(
            SecretboxError::InvalidLength,
        ),
        r is Ok ==> r->Ok_0@.len() == plaintext@.len() + TAG_LEN,
{
    let mut km = match KeyMaterial::new(key, nonce) {
        Ok(km) => km,
        Err(e) => return Err(e),
    };
    let mut padded = with_prefix(plaintext, ZERO_BYTES);
    let mut out = with_zero(padded.len());
    proof {
        assert(padded@.subrange(0, ZERO_BYTES as int) =~= zeros(ZERO_BYTES as nat));
    }
    let status = crypto_secretbox(&mut out, &padded, &km.nonce, &km.key);
    wipe(&mut padded);
    km.wipe();
    match status {
        Ok(()) => {
            let sealed = strip_prefix(out.as_slice(), BOX_ZERO_BYTES);
            wipe(&mut out);
            proof {
                assert(sealed@ =~= box_tail(zeros(ZERO_BYTES as nat) + plaintext@, nonce@, key@));
            }
            Ok(sealed)
        },
        Err(()) => {
            wipe(&mut out);
            Err(SecretboxError::CryptoOperationFailed)
        },
    }
}

/// Verifies and decrypts `ciphertext`, the tag followed by the ciphertext
/// proper, under `nonce` and `key`. No plaintext leaves on any failure.
pub fn open(ciphertext: &[u8], nonce: &[u8], key: &[u8]) -> (r: Result<Vec<u8>, SecretboxError>)
    requires
        ciphertext@.len() + BOX_ZERO_BYTES <= usize::MAX,
    ensures
        bytes_of(r) == open_spec(ciphertext@, nonce@, key@),
        !valid_lengths(key@, nonce@) ==> r == Err::<Vec<u8>, SecretboxError>(
            SecretboxError::InvalidLength,
        ),
        valid_lengths(key@, nonce@) && ciphertext@.len() < TAG_LEN ==> r == Err::<
            Vec<u8>,
            SecretboxError,
        >(SecretboxError::InputTooShort),
        r is Ok ==> r->Ok_0@.len() == ciphertext@.len() - TAG_LEN,
        forall|p: Seq<u8>|
            #[trigger] seal_spec(p, nonce@, key@) == Ok::<Seq<u8>, SecretboxError>(ciphertext@)
                ==> bytes_of(r) == Ok::<Seq<u8>, SecretboxError>(p),
{
    let mut km = match KeyMaterial::new(key, nonce) {
        Ok(km) => km,
        Err(e) => return Err(e),
    };
    if ciphertext.len() < TAG_LEN {
        km.wipe();
        return Err(SecretboxError::InputTooShort);
    }
    let mut padded = with_prefix(ciphertext, BOX_ZERO_BYTES);
    let mut out = with_zero(padded.len());
    let status = crypto_secretbox_open(&mut out, &padded, &km.nonce, &km.key);
    proof {
        assert forall|p: Seq<u8>|
            #[trigger] seal_spec(p, nonce@, key@) == Ok::<Seq<u8>, SecretboxError>(
                ciphertext@,
            ) implies status is Ok && out@ == zeros(ZERO_BYTES as nat) + p by {
            let m = zeros(ZERO_BYTES as nat) + p;
            assert(m.subrange(0, ZERO_BYTES as int) =~= zeros(ZERO_BYTES as nat));
            assert(padded@.subrange(BOX_ZERO_BYTES as int, padded@.len() as int) =~= ciphertext@);
        }
    }
    wipe(&mut padded);
    km.wipe();
    match status {
        Ok(()) => {
            let opened = strip_prefix(out.as_slice(), ZERO_BYTES);
            wipe(&mut out);
            proof {
                assert forall|p: Seq<u8>|
                    #[trigger] seal_spec(p, nonce@, key@) == Ok::<Seq<u8>, SecretboxError>(
                        ciphertext@,
                    ) implies opened@ == p by {
                    assert(opened@ =~= p);
                }
            }
            Ok(opened)
        },
        Err(()) => {
            wipe(&mut out);
            Err(SecretboxError::AuthenticationFailed)
        },
    }
}

} // verus!
