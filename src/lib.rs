//! Authenticated symmetric encryption in the NaCl secretbox layout.
//!
//! The cipher and authenticator come from `sodalite`; this crate validates
//! key and nonce lengths, lays out the zero-padded buffers that the
//! primitive works on, and trims the padding from what it hands back.
use vstd::prelude::*;

pub mod key;
pub mod pad;
pub mod primitive;
pub mod secretbox;

verus! {

/// Length of a secretbox nonce in bytes.
pub const NONCE_LEN: usize = 24;

/// Length of a secretbox key in bytes.
pub const KEY_LEN: usize = 32;

/// Length of the authentication tag carried by every sealed message.
pub const TAG_LEN: usize = 16;

/// Zero bytes that precede a plaintext handed to the primitive, and that
/// precede the plaintext it hands back on opening.
pub const ZERO_BYTES: usize = 32;

/// Zero bytes that precede a ciphertext handed to the primitive, and that
/// precede the ciphertext it hands back on sealing.
pub const BOX_ZERO_BYTES: usize = 16;

/// Why a secretbox operation was refused.
///
/// Running out of memory is not among them: it aborts the process.
#[derive(Clone, Copy, Debug, PartialEq, Eq, Structural)]
pub enum SecretboxError {
    /// The key is not `KEY_LEN` bytes long, or the nonce not `NONCE_LEN`.
    InvalidLength,
    /// The ciphertext is shorter than a tag.
    InputTooShort,
    /// The ciphertext's tag does not verify under the key and nonce.
    AuthenticationFailed,
    /// The primitive refused the buffers for a reason other than the tag.
    CryptoOperationFailed,
}

} // verus!
