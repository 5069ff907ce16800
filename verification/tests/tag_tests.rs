use std::io::Cursor;

use block_modes::BlockMode;
use id3::TagLike;

use rncm::codec::xor;
use rncm::codec::xor_iter;
use rncm::error::RncmError;
use rncm::keystream::rc4_keystream;
use rncm::tag::rewrite_tag;
use rncm::tag::Tag;
use rncm::tag::TagWarning;
use rncm::tag::TargetFormat;
use rncm::Ncm;

type Aes128Ecb = block_modes::Ecb<aes::Aes128, block_modes::block_padding::Pkcs7>;

const CORE_KEY: &[u8; 16] = b"hzHRAmso5kInbaxW";
const META_KEY: &[u8; 16] = br"#14ljk_!\]&0U<'(";

fn aes_encrypt(key: &[u8], data: &[u8]) -> Vec<u8> {
    let cipher = Aes128Ecb::new_from_slices(key, &[]).unwrap();
    cipher.encrypt_vec(data)
}

fn build_meta_blob(json: &str) -> Vec<u8> {
    let plain = format!("music:{}", json);
    let enc = aes_encrypt(META_KEY, plain.as_bytes());
    let b64 = base64::encode(&enc);
    let mut inner = b"163 key(Don't modify):".to_vec();
    inner.extend_from_slice(b64.as_bytes());
    xor(inner, 0x63)
}

fn build_key_blob(seed: &[u8]) -> Vec<u8> {
    let mut plain = b"neteasecloudmusic".to_vec();
    plain.extend_from_slice(seed);
    xor(aes_encrypt(CORE_KEY, &plain), 0x64)
}

fn build_container(
    key_blob: &[u8],
    meta_blob: &[u8],
    image: &[u8],
    pad: usize,
    audio: &[u8],
) -> Vec<u8> {
    let mut v = Vec::new();
    v.extend_from_slice(b"CTENFDAM");
    v.extend_from_slice(&[0, 0]);
    v.extend_from_slice(&(key_blob.len() as u32).to_le_bytes());
    v.extend_from_slice(key_blob);
    v.extend_from_slice(&(meta_blob.len() as u32).to_le_bytes());
    v.extend_from_slice(meta_blob);
    v.extend_from_slice(&[0; 5]);
    v.extend_from_slice(&((image.len() + pad) as u32).to_le_bytes());
    v.extend_from_slice(&(image.len() as u32).to_le_bytes());
    v.extend_from_slice(image);
    v.extend(std::iter::repeat(0u8).take(pad));
    v.extend_from_slice(audio);
    v
}

fn minimal_flac(frames: &[u8]) -> Vec<u8> {
    let mut v = Vec::new();
    v.extend_from_slice(b"fLaC");
    // One STREAMINFO block marked as the last metadata block.
    v.push(0x80);
    v.extend_from_slice(&[0, 0, 34]);
    v.extend_from_slice(&[0u8; 34]);
    v.extend_from_slice(frames);
    v
}

fn sample_tag(format: TargetFormat) -> Tag {
    Tag {
        format,
        name: "T".to_string(),
        artist: vec!["A".to_string(), "B".to_string()],
        album: "AL".to_string(),
        album_pic_type: "image/png".to_string(),
        album_pic_data: (0u8..16).collect(),
    }
}

#[test]
fn rewrite_flac_sets_fields_and_preserves_frames() {
    let frames = [0xAAu8; 25];
    let input = minimal_flac(&frames);
    let (out, warn) = rewrite_tag(input, sample_tag(TargetFormat::Flac));
    assert!(warn.is_none());
    assert!(out.ends_with(&frames));
    let ftag = metaflac::Tag::read_from(&mut Cursor::new(&out[..])).unwrap();
    let vc = ftag.vorbis_comments().unwrap();
    assert_eq!(vc.title(), Some(&vec!["T".to_string()]));
    assert_eq!(vc.album(), Some(&vec!["AL".to_string()]));
    assert_eq!(vc.artist(), Some(&vec!["A".to_string(), "B".to_string()]));
    let pics: Vec<_> = ftag.pictures().collect();
    assert_eq!(pics.len(), 1);
    assert_eq!(pics[0].mime_type, "image/png");
    assert_eq!(pics[0].picture_type, metaflac::block::PictureType::CoverFront);
    assert_eq!(pics[0].data, (0u8..16).collect::<Vec<u8>>());
}

#[test]
fn rewrite_flac_unreadable_passes_through() {
    let input = vec![1u8, 2, 3, 4, 5];
    let (out, warn) = rewrite_tag(input.clone(), sample_tag(TargetFormat::Flac));
    assert_eq!(warn, Some(TagWarning::UnreadableTag));
    assert_eq!(out, input);
}

#[test]
fn rewrite_mp3_creates_tag_and_preserves_bytes() {
    let input: Vec<u8> = [0xFF, 0xFB].iter().cycle().take(16).cloned().collect();
    let (out, warn) = rewrite_tag(input.clone(), sample_tag(TargetFormat::Mp3));
    assert!(warn.is_none());
    assert!(out.ends_with(&input));
    let mtag = id3::Tag::read_from2(Cursor::new(&out[..])).unwrap();
    assert_eq!(mtag.title(), Some("T"));
    assert_eq!(mtag.album(), Some("AL"));
    assert_eq!(mtag.artist(), Some("A/B"));
    let pics: Vec<_> = mtag.pictures().collect();
    assert_eq!(pics.len(), 1);
    assert_eq!(pics[0].mime_type, "image/png");
    assert_eq!(pics[0].picture_type, id3::frame::PictureType::CoverFront);
    assert_eq!(pics[0].description, "");
    assert_eq!(pics[0].data, (0u8..16).collect::<Vec<u8>>());
}

#[test]
fn rewrite_unsupported_passes_through() {
    let input = vec![0u8, 1, 2, 3, 250, 251];
    let (out, warn) = rewrite_tag(input.clone(), sample_tag(TargetFormat::Unsupported));
    assert_eq!(warn, Some(TagWarning::UnsupportedFormat));
    assert_eq!(out, input);
}

#[test]
fn tag_new_is_empty_and_unsupported() {
    let t = Tag::new();
    assert_eq!(t.format, TargetFormat::Unsupported);
    assert_eq!(t.name, "");
    assert!(t.artist.is_empty());
    assert_eq!(t.album, "");
    assert_eq!(t.album_pic_type, "");
    assert!(t.album_pic_data.is_empty());
}

#[test]
fn ncm_new_is_empty() {
    let n = Ncm::new();
    assert!(n.key_stream.is_empty());
    assert!(n.meta.is_empty());
    assert!(n.image.is_empty());
    assert!(n.data.is_empty());
}

const JSON: &str = r#"{"format":"flac","musicId":1001,"musicName":"T","artist":[["A",11],["B",22]],"album":"AL","albumId":7,"albumPic":"http://pic"}"#;

#[test]
fn full_pipeline_decodes_container() {
    let frames = [0xF0u8; 40];
    let audio_plain = minimal_flac(&frames);
    let seed = b"pipeline seed";
    let ks = rc4_keystream(&seed.to_vec());
    let audio_obf = xor_iter(audio_plain, &ks);
    let image = [0x89u8, 0x50, 0x4E, 0x47, 5, 6];
    let input = build_container(
        &build_key_blob(seed),
        &build_meta_blob(JSON),
        &image,
        4,
        &audio_obf,
    );
    let out = rncm::parse(&input).unwrap();
    assert_eq!(out.format, "flac");
    assert!(out.warning.is_none());
    assert!(out.data.ends_with(&frames));
    let ftag = metaflac::Tag::read_from(&mut Cursor::new(&out.data[..])).unwrap();
    let vc = ftag.vorbis_comments().unwrap();
    assert_eq!(vc.title(), Some(&vec!["T".to_string()]));
    assert_eq!(vc.album(), Some(&vec!["AL".to_string()]));
    assert_eq!(vc.artist(), Some(&vec!["A".to_string(), "B".to_string()]));
    let pics: Vec<_> = ftag.pictures().collect();
    assert_eq!(pics.len(), 1);
    assert_eq!(pics[0].data, image.to_vec());
}

#[test]
fn full_pipeline_rejects_bad_magic() {
    let seed = b"pipeline seed";
    let ks = rc4_keystream(&seed.to_vec());
    let audio_obf = xor_iter(vec![1, 2, 3], &ks);
    let mut input = build_container(
        &build_key_blob(seed),
        &build_meta_blob(JSON),
        &[],
        0,
        &audio_obf,
    );
    input[3] = b'?';
    let e = rncm::parse(&input).unwrap_err();
    assert_eq!(e, RncmError::MalformedContainer);
}

#[test]
fn ncm_parse_decrypts_segments() {
    let audio_plain = vec![0x11u8; 300];
    let seed = b"another seed";
    let ks = rc4_keystream(&seed.to_vec());
    let audio_obf = xor_iter(audio_plain.clone(), &ks);
    let image = [0x47u8, 0x49, 0x46, 0x38];
    let input = build_container(
        &build_key_blob(seed),
        &build_meta_blob(JSON),
        &image,
        2,
        &audio_obf,
    );
    let ncm = Ncm::parse(&input).unwrap();
    assert_eq!(ncm.key_stream, ks);
    assert!(ncm.meta.starts_with(b"music:"));
    assert_eq!(ncm.image, image.to_vec());
    assert_eq!(ncm.data, audio_plain);
    let m = ncm.ncm_meta().unwrap();
    assert_eq!(m.music_name, "T");
    assert_eq!(m.album_pic_type, "image/gif");
}

#[test]
fn rewrite_flac_truncated_streaminfo_passes_through() {
    // A STREAMINFO block that declares 2 bytes where 34 are required: the
    // pre-scan refuses it before the metadata reader can index out of range.
    let mut input = b"fLaC".to_vec();
    input.push(0x80);
    input.extend_from_slice(&[0, 0, 2]);
    input.extend_from_slice(&[9, 9]);
    let (out, warn) = rewrite_tag(input.clone(), sample_tag(TargetFormat::Flac));
    assert_eq!(warn, Some(TagWarning::UnreadableTag));
    assert_eq!(out, input);
}

#[test]
fn rewrite_flac_accepts_vorbis_comment_block() {
    let mut input = b"fLaC".to_vec();
    input.push(0x00);
    input.extend_from_slice(&[0, 0, 34]);
    input.extend_from_slice(&[0u8; 34]);
    let mut body = Vec::new();
    body.extend_from_slice(&3u32.to_le_bytes());
    body.extend_from_slice(b"abc");
    body.extend_from_slice(&1u32.to_le_bytes());
    body.extend_from_slice(&3u32.to_le_bytes());
    body.extend_from_slice(b"a=b");
    input.push(0x84);
    input.extend_from_slice(&[0, 0, body.len() as u8]);
    input.extend_from_slice(&body);
    let frames = [0x77u8; 9];
    input.extend_from_slice(&frames);
    let (out, warn) = rewrite_tag(input, sample_tag(TargetFormat::Flac));
    assert!(warn.is_none());
    assert!(out.ends_with(&frames));
    let ftag = metaflac::Tag::read_from(&mut Cursor::new(&out[..])).unwrap();
    assert_eq!(ftag.vorbis_comments().unwrap().title(), Some(&vec!["T".to_string()]));
}

#[test]
fn rewrite_flac_comment_without_separator_passes_through() {
    // A vorbis comment with no `=` would make the metadata reader panic; the
    // pre-scan degrades it to the unreadable-tag warning instead.
    let mut input = b"fLaC".to_vec();
    let mut body = Vec::new();
    body.extend_from_slice(&0u32.to_le_bytes());
    body.extend_from_slice(&1u32.to_le_bytes());
    body.extend_from_slice(&2u32.to_le_bytes());
    body.extend_from_slice(b"ab");
    input.push(0x84);
    input.extend_from_slice(&[0, 0, body.len() as u8]);
    input.extend_from_slice(&body);
    let (out, warn) = rewrite_tag(input.clone(), sample_tag(TargetFormat::Flac));
    assert_eq!(warn, Some(TagWarning::UnreadableTag));
    assert_eq!(out, input);
}
