use rncm::codec::xor;
use rncm::codec::xor_iter;
use rncm::container::parse_container;
use rncm::error::RncmError;
use rncm::image::image_type;
use rncm::keystream::rc4_keystream;

fn le32(n: u32) -> [u8; 4] {
    n.to_le_bytes()
}

fn build_container(
    key_blob: &[u8],
    meta_blob: &[u8],
    image: &[u8],
    pad: usize,
    audio: &[u8],
) -> Vec<u8> {
    let mut v = Vec::new();
    v.extend_from_slice(b"CTENFDAM");
    v.extend_from_slice(&[0xA5, 0x5A]);
    v.extend_from_slice(&le32(key_blob.len() as u32));
    v.extend_from_slice(key_blob);
    v.extend_from_slice(&le32(meta_blob.len() as u32));
    v.extend_from_slice(meta_blob);
    v.extend_from_slice(&[1, 2, 3, 4, 5]);
    v.extend_from_slice(&le32((image.len() + pad) as u32));
    v.extend_from_slice(&le32(image.len() as u32));
    v.extend_from_slice(image);
    v.extend(std::iter::repeat(0u8).take(pad));
    v.extend_from_slice(audio);
    v
}

#[test]
fn xor_constant_exact_values() {
    let out = xor(vec![0x00, 0xFF, 0x37], 0x64);
    assert_eq!(out, vec![0x64, 0x9B, 0x53]);
}

#[test]
fn xor_constant_is_involution() {
    let data: Vec<u8> = (0u8..=255).collect();
    let once = xor(data.clone(), 0x63);
    assert_ne!(once, data);
    let twice = xor(once, 0x63);
    assert_eq!(twice, data);
}

#[test]
fn xor_cyclic_exact_values() {
    let key = vec![0x01, 0x02];
    let out = xor_iter(vec![0x10, 0x20, 0x30], &key);
    assert_eq!(out, vec![0x11, 0x22, 0x31]);
}

#[test]
fn xor_cyclic_is_involution() {
    let key: Vec<u8> = (0u8..=255).map(|b| b.wrapping_mul(31)).collect();
    assert_eq!(key.len(), 256);
    let data: Vec<u8> = (0..1000).map(|i| (i % 251) as u8).collect();
    let once = xor_iter(data.clone(), &key);
    let twice = xor_iter(once, &key);
    assert_eq!(twice, data);
}

#[test]
fn keystream_is_deterministic() {
    let seed = b"a sample seed".to_vec();
    let a = rc4_keystream(&seed);
    let b = rc4_keystream(&seed);
    assert_eq!(a.len(), 256);
    assert_eq!(a, b);
}

#[test]
fn keystream_differs_for_different_seeds() {
    let a = rc4_keystream(&b"seed one".to_vec());
    let b = rc4_keystream(&b"seed two".to_vec());
    assert_ne!(a, b);
}

#[test]
fn parse_container_extracts_segments() {
    let key_blob = vec![9u8; 48];
    let meta_blob = vec![7u8; 30];
    let image = vec![0x89, 0x50, 0x4E, 0x47, 1, 2];
    let audio = vec![0xAB; 77];
    let input = build_container(&key_blob, &meta_blob, &image, 10, &audio);
    let c = parse_container(&input).unwrap();
    assert_eq!(c.key_blob, key_blob);
    assert_eq!(c.meta_blob, meta_blob);
    assert_eq!(c.image, image);
    assert_eq!(c.audio, audio);
}

#[test]
fn parse_container_round_trips_structurally() {
    let key_blob = vec![1u8, 2, 3, 4];
    let meta_blob = vec![5u8, 6];
    let image = vec![0x47, 0x49, 0x46, 0x38];
    let audio = vec![0xCD; 13];
    let input = build_container(&key_blob, &meta_blob, &image, 3, &audio);
    let c = parse_container(&input).unwrap();
    // Re-serializing the four extracted segments around the same skips
    // reproduces the original byte layout.
    let rebuilt = build_container(&c.key_blob, &c.meta_blob, &c.image, 3, &c.audio);
    // The reserved bytes in build_container are fixed, so the rebuild differs
    // only if a segment changed.
    assert_eq!(rebuilt, input);
}

#[test]
fn parse_container_rejects_bad_magic() {
    let mut input = build_container(&[1, 2], &[3], &[], 0, &[9]);
    input[0] = b'X';
    assert_eq!(parse_container(&input).unwrap_err(), RncmError::MalformedContainer);
}

#[test]
fn parse_container_rejects_short_input() {
    let input = vec![b'C', b'T', b'E'];
    assert_eq!(parse_container(&input).unwrap_err(), RncmError::MalformedContainer);
}

#[test]
fn parse_container_rejects_key_overrun() {
    let mut input = build_container(&[1, 2, 3, 4], &[5], &[], 0, &[9]);
    // Declare a key blob far longer than the remaining input.
    input[10..14].copy_from_slice(&le32(10_000));
    assert_eq!(parse_container(&input).unwrap_err(), RncmError::MalformedContainer);
}

#[test]
fn parse_container_rejects_meta_overrun() {
    let key_blob = vec![1u8, 2, 3, 4];
    let mut input = build_container(&key_blob, &[5, 6], &[], 0, &[9]);
    let meta_len_off = 14 + key_blob.len();
    input[meta_len_off..meta_len_off + 4].copy_from_slice(&le32(10_000));
    assert_eq!(parse_container(&input).unwrap_err(), RncmError::MalformedContainer);
}

#[test]
fn parse_container_rejects_image_size_over_space() {
    let key_blob = vec![1u8, 2];
    let meta_blob = vec![3u8];
    let mut input = build_container(&key_blob, &meta_blob, &[7, 8], 0, &[9]);
    // imageSize field sits 9 bytes past the end of the metadata segment.
    let size_off = 14 + key_blob.len() + 4 + meta_blob.len() + 9;
    input[size_off..size_off + 4].copy_from_slice(&le32(100));
    assert_eq!(parse_container(&input).unwrap_err(), RncmError::MalformedContainer);
}

#[test]
fn image_type_classifies_png() {
    let r = image_type(&vec![0x89, 0x50, 0x4E, 0x47, 0, 0]);
    assert_eq!(r, Some("image/png".to_string()));
}

#[test]
fn image_type_classifies_jpeg() {
    let r = image_type(&vec![0xFF, 0xD8, 0xFF, 0xE0, 1]);
    assert_eq!(r, Some("image/jpeg".to_string()));
}

#[test]
fn image_type_classifies_gif_any_fourth_byte() {
    let r = image_type(&vec![0x47, 0x49, 0x46, 0x38]);
    assert_eq!(r, Some("image/gif".to_string()));
    let r2 = image_type(&vec![0x47, 0x49, 0x46, 0x00]);
    assert_eq!(r2, Some("image/gif".to_string()));
}

#[test]
fn image_type_unknown_is_none() {
    assert_eq!(image_type(&vec![0, 0, 0, 0]), None);
    assert_eq!(image_type(&vec![0x89, 0x50]), None);
}
