use rsalt::key::{to_fixed_buf, KeyMaterial};
use rsalt::pad::{strip_prefix, wipe, with_prefix, with_zero};
use rsalt::{SecretboxError, KEY_LEN, NONCE_LEN};

#[test]
fn with_zero_gives_zero_bytes() {
    assert_eq!(with_zero(0), Vec::<u8>::new());
    assert_eq!(with_zero(3), vec![0u8, 0, 0]);
}

#[test]
fn with_prefix_puts_zeros_before_payload() {
    let payload = [7u8, 8, 9];
    assert_eq!(with_prefix(&payload, 2), vec![0u8, 0, 7, 8, 9]);
    assert_eq!(with_prefix(&payload, 0), vec![7u8, 8, 9]);
    assert_eq!(with_prefix(&[], 4), vec![0u8; 4]);
    assert_eq!(payload, [7u8, 8, 9]);
}

#[test]
fn with_prefix_seal_and_open_layouts() {
    let payload = [1u8, 2, 3];
    let sealed_in = with_prefix(&payload, 32);
    assert_eq!(sealed_in.len(), 35);
    assert!(sealed_in[..32].iter().all(|b| *b == 0));
    assert_eq!(&sealed_in[32..], &payload);
    let opened_in = with_prefix(&payload, 16);
    assert_eq!(opened_in.len(), 19);
    assert!(opened_in[..16].iter().all(|b| *b == 0));
    assert_eq!(&opened_in[16..], &payload);
}

#[test]
fn strip_prefix_undoes_with_prefix() {
    let payload = [4u8, 5, 6, 7];
    assert_eq!(strip_prefix(&with_prefix(&payload, 16), 16), payload.to_vec());
    assert_eq!(strip_prefix(&[1u8, 2, 3], 3), Vec::<u8>::new());
    assert_eq!(strip_prefix(&[1u8, 2, 3], 1), vec![2u8, 3]);
}

#[test]
fn wipe_zeroes_and_keeps_length() {
    let mut v = vec![9u8, 8, 7, 6];
    wipe(&mut v);
    assert_eq!(v, vec![0u8; 4]);
}

#[test]
fn to_fixed_buf_copies_exactly() {
    let a: [u8; 3] = to_fixed_buf(&[3u8, 1, 2]);
    assert_eq!(a, [3u8, 1, 2]);
}

#[test]
fn key_material_accepts_exact_lengths() {
    let key: Vec<u8> = (0..32u8).collect();
    let nonce: Vec<u8> = (100..124u8).collect();
    let km = KeyMaterial::new(&key, &nonce).unwrap();
    assert_eq!(km.key.to_vec(), key);
    assert_eq!(km.nonce.to_vec(), nonce);
}

#[test]
fn key_material_rejects_wrong_lengths() {
    let key = [0u8; KEY_LEN];
    let nonce = [0u8; NONCE_LEN];
    assert_eq!(KeyMaterial::new(&key[..31], &nonce).err(), Some(SecretboxError::InvalidLength));
    assert_eq!(KeyMaterial::new(&[0u8; 33], &nonce).err(), Some(SecretboxError::InvalidLength));
    assert_eq!(KeyMaterial::new(&key, &nonce[..23]).err(), Some(SecretboxError::InvalidLength));
    assert_eq!(KeyMaterial::new(&key, &[0u8; 25]).err(), Some(SecretboxError::InvalidLength));
    assert_eq!(KeyMaterial::new(&[], &[]).err(), Some(SecretboxError::InvalidLength));
}

#[test]
fn key_material_wipe_zeroes_both() {
    let mut km = KeyMaterial::new(&[5u8; 32], &[6u8; 24]).unwrap();
    km.wipe();
    assert_eq!(km.key, [0u8; 32]);
    assert_eq!(km.nonce, [0u8; 24]);
}
