//! Fixed-length key and nonce buffers.
use vstd::prelude::*;

use crate::pad::zeros;
use crate::{SecretboxError, KEY_LEN, NONCE_LEN};

verus! {

/// Copies `buf`, which must be exactly `N` bytes long, into an array.
pub fn to_fixed_buf<const N: usize>(buf: &[u8]) -> (r: [u8; N])
    requires
        buf@.len() == N,
    ensures
        r@ == buf@,
{
    let mut out = [0u8; N];
    let mut i: usize = 0;
    while i < N
        invariant
            i <= N,
            buf@.len() == N,
            out@.len() == N,
            forall|j: int| 0 <= j < i ==> out@[j] == buf@[j],
        decreases N - i,
    {
        out[i] = buf[i];
        i = i + 1;
    }
    assert(out@ =~= buf@);
    out
}

/// Whether a key and a nonce have the lengths that secretbox requires.
pub open spec fn valid_lengths(key: Seq<u8>, nonce: Seq<u8>) -> bool {
    key.len() == KEY_LEN && nonce.len() == NONCE_LEN
}

/// A secret key and a nonce, each held at its fixed length.
pub struct KeyMaterial {
    pub key: [u8; KEY_LEN],
    pub nonce: [u8; NONCE_LEN],
}

impl KeyMaterial {
    /// Copies `key` and `nonce` into fixed-length buffers, or refuses them
    /// with `InvalidLength` when either has the wrong length.
    pub fn new(key: &[u8], nonce: &[u8]) -> (r: Result<KeyMaterial, SecretboxError>)
        ensures
            valid_lengths(key@, nonce@) <==> r is Ok,
            !valid_lengths(key@, nonce@) ==> r == Err::<KeyMaterial, SecretboxError>(
                SecretboxError::InvalidLength,
            ),
            r is Ok ==> r->Ok_0.key@ == key@ && r->Ok_0.nonce@ == nonce@,
    {
        if key.len() != KEY_LEN || nonce.len() != NONCE_LEN {
            return Err(SecretboxError::InvalidLength);
        }
        Ok(KeyMaterial { key: to_fixed_buf(key), nonce: to_fixed_buf(nonce) })
    }

    /// Overwrites the key and the nonce with zeros.
    pub fn wipe(&mut self)
        ensures
            final(self).key@ == zeros(KEY_LEN as nat),
            final(self).nonce@ == zeros(NONCE_LEN as nat),
    {
        let mut i: usize = 0;
        while i < KEY_LEN
            invariant
                i <= KEY_LEN,
                self.key@.len() == KEY_LEN,
                forall|j: int| 0 <= j < i ==> self.key@[j] == 0u8,
            decreases KEY_LEN - i,
        {
            self.key[i] = 0u8;
            i = i + 1;
        }
        let mut i: usize = 0;
        while i < NONCE_LEN
            invariant
                i <= NONCE_LEN,
                self.nonce@.len() == NONCE_LEN,
                forall|j: int| 0 <= j < i ==> self.nonce@[j] == 0u8,
                forall|j: int| 0 <= j < KEY_LEN ==> self.key@[j] == 0u8,
                self.key@.len() == KEY_LEN,
            decreases NONCE_LEN - i,
        {
            self.nonce[i] = 0u8;
            i = i + 1;
        }
        assert(self.key@ =~= zeros(KEY_LEN as nat));
        assert(self.nonce@ =~= zeros(NONCE_LEN as nat));
    }
}

} // verus!
