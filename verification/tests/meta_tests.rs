use block_modes::BlockMode;

use rncm::codec::xor;
use rncm::crypto::decrypt_key_blob;
use rncm::error::RncmError;
use rncm::keystream::rc4_keystream;
use rncm::meta::decode_metadata;
use rncm::meta::decrypt_meta_blob;
use rncm::meta::parse_format;
use rncm::tag::TargetFormat;

type Aes128Ecb = block_modes::Ecb<aes::Aes128, block_modes::block_padding::Pkcs7>;

const CORE_KEY: &[u8; 16] = b"hzHRAmso5kInbaxW";
const META_KEY: &[u8; 16] = br"#14ljk_!\]&0U<'(";

fn aes_encrypt(key: &[u8], data: &[u8]) -> Vec<u8> {
    let cipher = Aes128Ecb::new_from_slices(key, &[]).unwrap();
    cipher.encrypt_vec(data)
}

/// An obfuscated metadata blob built by the documented steps in reverse:
/// encrypt with the metadata key, base64, a 22-byte prefix, the constant XOR.
fn build_meta_blob(json: &str) -> Vec<u8> {
    let plain = format!("music:{}", json);
    let enc = aes_encrypt(META_KEY, plain.as_bytes());
    let b64 = base64::encode(&enc);
    let mut inner = b"163 key(Don't modify):".to_vec();
    assert_eq!(inner.len(), 22);
    inner.extend_from_slice(b64.as_bytes());
    xor(inner, 0x63)
}

/// An obfuscated key blob: a 17-byte prefix and the seed, encrypted with the
/// core key and whitened by the constant XOR.
fn build_key_blob(seed: &[u8]) -> Vec<u8> {
    let mut plain = b"neteasecloudmusic".to_vec();
    assert_eq!(plain.len(), 17);
    plain.extend_from_slice(seed);
    xor(aes_encrypt(CORE_KEY, &plain), 0x64)
}

const JSON: &str = r#"{"format":"flac","musicId":1001,"musicName":"T","artist":[["A",11],["B",22]],"album":"AL","albumId":7,"albumPic":"http://pic"}"#;

#[test]
fn decode_metadata_recovers_record() {
    let blob = build_meta_blob(JSON);
    let plain = decrypt_meta_blob(blob).unwrap();
    assert!(plain.starts_with(b"music:"));
    let image = vec![0x89, 0x50, 0x4E, 0x47, 9, 9];
    let m = decode_metadata(&plain, &image).unwrap();
    assert_eq!(m.format, "flac");
    assert_eq!(m.music_id, 1001);
    assert_eq!(m.music_name, "T");
    assert_eq!(m.artist, vec![("A".to_string(), 11), ("B".to_string(), 22)]);
    assert_eq!(m.album, "AL");
    assert_eq!(m.album_id, 7);
    assert_eq!(m.album_pic, "http://pic");
    assert_eq!(m.album_pic_type, "image/png");
    assert_eq!(m.album_pic_data, image);
}

#[test]
fn decode_metadata_skips_unknown_cover() {
    let blob = build_meta_blob(JSON);
    let plain = decrypt_meta_blob(blob).unwrap();
    let m = decode_metadata(&plain, &vec![0, 0, 0, 0]).unwrap();
    assert_eq!(m.album_pic_type, "");
    assert_eq!(m.album_pic_data, Vec::<u8>::new());
}

#[test]
fn decode_metadata_rejects_missing_field() {
    let json = r#"{"format":"flac","musicId":1}"#;
    let blob = build_meta_blob(json);
    let plain = decrypt_meta_blob(blob).unwrap();
    let e = decode_metadata(&plain, &vec![]).unwrap_err();
    assert_eq!(e, RncmError::EncodingError);
}

#[test]
fn decode_metadata_rejects_short_text() {
    let e = decode_metadata(&vec![b'm', b'u'], &vec![]).unwrap_err();
    assert_eq!(e, RncmError::EncodingError);
}

#[test]
fn decrypt_meta_blob_rejects_bad_base64() {
    let mut inner = b"163 key(Don't modify):".to_vec();
    inner.extend_from_slice(b"!!!not base64!!!");
    let e = decrypt_meta_blob(xor(inner, 0x63)).unwrap_err();
    assert_eq!(e, RncmError::EncodingError);
}

#[test]
fn decrypt_meta_blob_rejects_short_blob() {
    let e = decrypt_meta_blob(vec![1, 2, 3]).unwrap_err();
    assert_eq!(e, RncmError::EncodingError);
}

#[test]
fn decrypt_meta_blob_rejects_bad_padding() {
    // Valid base64 of 16 bytes that are not a valid PKCS#7 block.
    let garbage = base64::encode(&[0u8; 16]);
    let mut inner = b"163 key(Don't modify):".to_vec();
    inner.extend_from_slice(garbage.as_bytes());
    let e = decrypt_meta_blob(xor(inner, 0x63)).unwrap_err();
    assert_eq!(e, RncmError::CryptoError);
}

#[test]
fn decrypt_key_blob_recovers_keystream() {
    let seed = b"the keystream seed";
    let blob = build_key_blob(seed);
    let ks = decrypt_key_blob(blob).unwrap();
    assert_eq!(ks.len(), 256);
    assert_eq!(ks, rc4_keystream(&seed.to_vec()));
}

#[test]
fn decrypt_key_blob_rejects_bad_length() {
    // Not a multiple of the block size once whitened.
    let e = decrypt_key_blob(vec![0x64; 15]).unwrap_err();
    assert_eq!(e, RncmError::CryptoError);
}

#[test]
fn decrypt_key_blob_rejects_short_plaintext() {
    // Decrypts fine but leaves no seed after the 17-byte prefix.
    let blob = xor(aes_encrypt(CORE_KEY, b"short"), 0x64);
    let e = decrypt_key_blob(blob).unwrap_err();
    assert_eq!(e, RncmError::CryptoError);
}

#[test]
fn parse_format_maps_known_names() {
    assert_eq!(parse_format(&"flac".to_string()), TargetFormat::Flac);
    assert_eq!(parse_format(&"mp3".to_string()), TargetFormat::Mp3);
    assert_eq!(parse_format(&"ogg".to_string()), TargetFormat::Unsupported);
}
