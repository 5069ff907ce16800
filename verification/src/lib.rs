use vstd::prelude::*;

pub mod codec;
pub mod container;
pub mod crypto;
pub mod error;
pub mod flac_check;
pub mod image;
pub mod keystream;
pub mod meta;
pub mod tag;

use crate::codec::xor_cyclic_spec;
use crate::codec::xor_iter;
use crate::error::RncmError;
use crate::meta::artist_pairs_view;
use crate::meta::decode_metadata;
use crate::meta::meta_record_of;
use crate::meta::Metadata;
use crate::tag::flac_tag_region_of;
use crate::tag::id3_tag_region_of;
use crate::tag::appends_suffix;
use crate::tag::rewrite_tag;
use crate::tag::Tag;
use crate::tag::TagWarning;

verus! {

/// A fully decrypted container: the derived 256-byte keystream, the
/// decrypted metadata text (still carrying its fixed literal prefix), the
/// raw cover image, and the decrypted audio payload.
pub struct Ncm {
    pub key_stream: Vec<u8>,
    pub meta: Vec<u8>,
    pub image: Vec<u8>,
    pub data: Vec<u8>,
}

/// What decrypting a whole container yields: the keystream derived from the
/// recovered seed, the decrypted metadata text, the image bytes, and the
/// audio payload decrypted by cyclic XOR against the keystream. `None` when
/// the layout, the key recovery, or the metadata recovery fails.
pub open spec fn ncm_spec(s: Seq<u8>) -> Option<(Seq<u8>, Seq<u8>, Seq<u8>, Seq<u8>)> {
    match container::parse_spec(s) {
        None => None,
        Some(segs) => match crypto::key_seed_of(segs.0) {
            None => None,
            Some(seed) => match meta::meta_plain_of(segs.1) {
                None => None,
                Some(mp) => Some(
                    (
                        keystream::keystream_spec(seed),
                        mp,
                        segs.2,
                        xor_cyclic_spec(segs.3, keystream::keystream_spec(seed)),
                    ),
                ),
            },
        },
    }
}

impl Ncm {
    /// An empty result, before any container has been decrypted into it.
    pub fn new() -> (r: Ncm)
        ensures
            r.key_stream@.len() == 0,
            r.meta@.len() == 0,
            r.image@.len() == 0,
            r.data@.len() == 0,
    {
        Ncm { key_stream: Vec::new(), meta: Vec::new(), image: Vec::new(), data: Vec::new() }
    }

    /// Parse raw container bytes and decrypt every segment: recover the
    /// keystream from the key blob, the metadata text from the metadata
    /// blob, and the audio payload by cyclic XOR against the keystream.
    /// Succeeds exactly when every stage does; a layout failure is reported
    /// as a malformed container, later stages by their own error kinds.
    pub fn parse(input: &Vec<u8>) -> (r: Result<Ncm, RncmError>)
        ensures
            r is Ok <==> ncm_spec(input@) is Some,
            r matches Ok(n) ==> {
                let parts = ncm_spec(input@).unwrap();
                &&& n.key_stream@ == parts.0
                &&& n.meta@ == parts.1
                &&& n.image@ == parts.2
                &&& n.data@ == parts.3
            },
            r matches Err(e) ==> match container::parse_spec(input@) {
                None => e == RncmError::MalformedContainer,
                Some(segs) => if crypto::key_seed_of(segs.0) is None {
                    e == RncmError::CryptoError
                } else {
                    meta::meta_plain_of(segs.1) is None && e == meta::meta_blob_error_of(segs.1)
                },
            },
    {
        let c = match container::parse_container(input) {
            Ok(c) => c,
            Err(e) => {
                return Err(e);
            },
        };
        let key_stream = match crypto::decrypt_key_blob(c.key_blob) {
            Ok(k) => k,
            Err(e) => {
                return Err(e);
            },
        };
        let meta_plain = match meta::decrypt_meta_blob(c.meta_blob) {
            Ok(m) => m,
            Err(e) => {
                return Err(e);
            },
        };
        let data = xor_iter(c.audio, &key_stream);
        Ok(Ncm { key_stream, meta: meta_plain, image: c.image, data })
    }

    /// Decode this container's structured metadata record, with the cover
    /// fields filled in from its image bytes. Succeeds exactly when the text
    /// after the fixed prefix denotes the record, and returns its fields.
    pub fn ncm_meta(&self) -> (r: Result<Metadata, RncmError>)
        ensures
            r is Ok <==> (self.meta@.len() >= 6 && meta_record_of(self.meta@.skip(6)) is Some),
            r matches Err(e) ==> e == RncmError::EncodingError,
            r matches Ok(m) ==> ({
                let rec = meta_record_of(self.meta@.skip(6)).unwrap();
                &&& m.format@ == rec.format
                &&& m.music_id == rec.music_id
                &&& m.music_name@ == rec.music_name
                &&& artist_pairs_view(m.artist@) == rec.artist
                &&& m.album@ == rec.album
                &&& m.album_id == rec.album_id
                &&& m.album_pic@ == rec.album_pic
                &&& match image::image_type_spec(self.image@) {
                    Some(t) => m.album_pic_type@ == t && m.album_pic_data@ == self.image@,
                    None => m.album_pic_type@ == Seq::<char>::empty() && m.album_pic_data@
                        == Seq::<u8>::empty(),
                }
            }),
    {
        decode_metadata(&self.meta, &self.image)
    }
}

/// Decrypt (or re-encrypt: the transform is an involution) an audio payload
/// against the 256-byte keystream, applied cyclically.
pub fn decrypt_payload(data: Vec<u8>, key_stream: &Vec<u8>) -> (r: Vec<u8>)
    requires
        key_stream@.len() > 0,
    ensures
        r@ == xor_cyclic_spec(data@, key_stream@),
{
    xor_iter(data, key_stream)
}

/// `out` ends with the bytes of `inp` from some position on: whatever tag
/// region was rewritten, an exact byte suffix of the input survives.
pub open spec fn ends_with_suffix_of(out: Seq<u8>, inp: Seq<u8>) -> bool {
    exists|k: int| appends_suffix(out, inp, k)
}

/// The outcome of decoding one container: the output audio bytes, the
/// format name for the output extension, and the non-fatal tag-rewrite
/// warning when the rewrite degraded to a pass-through.
#[derive(Debug)]
pub struct NcmOutput {
    pub data: Vec<u8>,
    pub format: String,
    pub warning: Option<TagWarning>,
}

/// Decode one whole container: parse and decrypt it, recover the metadata,
/// and rewrite the tag region of the decrypted audio. Succeeds exactly when
/// every deterministic stage does; each fatal failure returns its stage's
/// error kind and no output bytes at all; a tag-rewrite failure degrades to
/// passing the decrypted audio through unchanged. On every success the
/// format names the record's format field and the decrypted audio frames
/// survive as an exact byte suffix.
pub fn parse(input: &Vec<u8>) -> (r: Result<NcmOutput, RncmError>)
    ensures
        r is Ok <==> (ncm_spec(input@) matches Some(parts) && parts.1.len() >= 6
            && meta_record_of(parts.1.skip(6)) is Some),
        r matches Err(e) ==> match container::parse_spec(input@) {
            None => e == RncmError::MalformedContainer,
            Some(segs) => if crypto::key_seed_of(segs.0) is None {
                e == RncmError::CryptoError
            } else if meta::meta_plain_of(segs.1) is None {
                e == meta::meta_blob_error_of(segs.1)
            } else {
                e == RncmError::EncodingError
            },
        },
        r matches Ok(o) ==> {
            let parts = ncm_spec(input@).unwrap();
            let rec = meta_record_of(parts.1.skip(6)).unwrap();
            &&& o.format@ == rec.format
            &&& (o.warning == Some(TagWarning::UnsupportedFormat) <==> !(rec.format == "flac"@
                || rec.format == "mp3"@))
            &&& (o.warning matches Some(w) ==> o.data@ == parts.3)
            &&& (o.warning is None ==> ends_with_suffix_of(o.data@, parts.3))
            &&& (rec.format == "flac"@ && o.warning is None ==> (flac_tag_region_of(
                parts.3,
            ) matches Some(n) && appends_suffix(o.data@, parts.3, n as int)))
            &&& (rec.format == "mp3"@ && o.warning is None ==> ((id3_tag_region_of(
                parts.3,
            ) matches Some(n) && appends_suffix(o.data@, parts.3, n as int)) || (
            id3_tag_region_of(parts.3) is None && appends_suffix(o.data@, parts.3, 0))))
        },
{
    let ncm = match Ncm::parse(input) {
        Ok(n) => n,
        Err(e) => {
            return Err(e);
        },
    };
    let m = match ncm.ncm_meta() {
        Ok(m) => m,
        Err(e) => {
            return Err(e);
        },
    };
    let format = m.format.clone();
    let t = Tag::from(m);
    let ghost audio = ncm.data@;
    let (data, warning) = rewrite_tag(ncm.data, t);
    proof {
        if warning is None {
            assert(ends_with_suffix_of(data@, audio));
            assert(audio == ncm_spec(input@).unwrap().3);
        }
    }
    Ok(NcmOutput { data, format, warning })
}

} // verus!

