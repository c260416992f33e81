//! The XSalsa20-Poly1305 primitive of `sodalite`, as this crate relies on it.
use vstd::prelude::*;

use crate::pad::zeros;
use crate::{BOX_ZERO_BYTES, KEY_LEN, NONCE_LEN, ZERO_BYTES};

verus! {

/// The buffer that `sodalite::secretbox` writes for the padded message `m`
/// under nonce `n` and key `k`.
pub uninterp spec fn secretbox_of(m: Seq<u8>, n: Seq<u8>, k: Seq<u8>) -> Seq<u8>;

/// What `sodalite::secretbox_open` writes for the padded ciphertext `c` under
/// nonce `n` and key `k`, or `None` where it refuses `c`.
pub uninterp spec fn secretbox_open_of(c: Seq<u8>, n: Seq<u8>, k: Seq<u8>) -> Option<Seq<u8>>;

/// The box of the padded message `m` without its leading `BOX_ZERO_BYTES`
/// bytes: the tag followed by the ciphertext.
pub open spec fn box_tail(m: Seq<u8>, n: Seq<u8>, k: Seq<u8>) -> Seq<u8> {
    Seq::new(
        (m.len() - BOX_ZERO_BYTES) as nat,
        |i: int| secretbox_of(m, n, k)[i + BOX_ZERO_BYTES],
    )
}

/// Relies on `sodalite::secretbox`: given a message whose first 32 bytes are
/// zero and an output of the same length, it always returns `Ok`, and what it
/// writes depends on the message, nonce and key alone.
#[verifier::external_body]
pub(crate) fn crypto_secretbox(
    c: &mut Vec<u8>,
    m: &Vec<u8>,
    n: &[u8; NONCE_LEN],
    k: &[u8; KEY_LEN],
) -> (r: Result<(), ()>)
    requires
        old(c)@.len() == m@.len(),
        m@.len() >= ZERO_BYTES,
        m@.subrange(0, ZERO_BYTES as int) == zeros(ZERO_BYTES as nat),
    ensures
        r is Ok,
        final(c)@ == secretbox_of(m@, n@, k@),
        final(c)@.len() == m@.len(),
{
    sodalite::secretbox(c.as_mut_slice(), m.as_slice(), n, k)
}

/// Relies on `sodalite::secretbox_open`: given an output as long as the
/// ciphertext, it refuses a ciphertext shorter than 32 bytes or one whose tag
/// does not verify, and otherwise writes the padded message. It reads no
/// byte of `c` before the tag, so bytes that agree from the tag on with the
/// box of a padded message `p` open to `p`.
#[verifier::external_body]
pub(crate) fn crypto_secretbox_open(
    m: &mut Vec<u8>,
    c: &Vec<u8>,
    n: &[u8; NONCE_LEN],
    k: &[u8; KEY_LEN],
) -> (r: Result<(), ()>)
    requires
        old(m)@.len() == c@.len(),
    ensures
        final(m)@.len() == c@.len(),
        r is Ok <==> secretbox_open_of(c@, n@, k@) is Some,
        r is Ok ==> secretbox_open_of(c@, n@, k@) == Some(final(m)@),
        c@.len() < ZERO_BYTES ==> r is Err,
        forall|p: Seq<u8>|
            p.len() == c@.len() && p.len() >= ZERO_BYTES && p.subrange(0, ZERO_BYTES as int)
                == zeros(ZERO_BYTES as nat) && #[trigger] box_tail(p, n@, k@) == c@.subrange(
                BOX_ZERO_BYTES as int,
                c@.len() as int,
            ) ==> r is Ok && final(m)@ == p,
{
    sodalite::secretbox_open(m.as_mut_slice(), c.as_slice(), n, k)
}

} // verus!
