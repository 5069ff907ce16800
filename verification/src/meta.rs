use vstd::prelude::*;
use vstd::string::StringExecFns;

use serde_json::Value as JsonValue;

use crate::codec::xor;
use crate::codec::xor_const_spec;
use crate::crypto::aes_ecb_decrypt;
use crate::crypto::aes_ecb_decrypt_of;
use crate::crypto::base64_decode;
use crate::crypto::base64_decode_of;
use crate::crypto::meta_key;
use crate::crypto::meta_key_spec;
use crate::crypto::skip_bytes;
use crate::error::RncmError;
use crate::image::image_type;
use crate::image::image_type_spec;
use crate::image::opt_string;
use crate::tag::Tag;
use crate::tag::TargetFormat;

verus! {

/// The structured record recovered from the metadata text, plus the cover
/// fields filled in from the container's image bytes (an empty
/// `album_pic_type` means the cover was not recognized).
#[derive(Debug)]
pub struct Metadata {
    pub format: String,
    pub music_id: u32,
    pub music_name: String,
    pub artist: Vec<(String, u32)>,
    pub album: String,
    pub album_id: u32,
    pub album_pic: String,
    pub album_pic_type: String,
    pub album_pic_data: Vec<u8>,
}

/// The decrypted metadata text hidden in an obfuscated metadata blob: strip
/// the constant XOR, drop the fixed 22-byte textual prefix, decode base64,
/// block-decrypt with the metadata key. `None` when any stage fails.
pub open spec fn meta_plain_of(blob: Seq<u8>) -> Option<Seq<u8>> {
    let x = xor_const_spec(blob, 0x63);
    if x.len() < 22 {
        None
    } else {
        match base64_decode_of(x.skip(22)) {
            Some(d) => aes_ecb_decrypt_of(meta_key_spec(), d),
            None => None,
        }
    }
}

/// The error kind a failing metadata recovery reports: an encoding error for
/// a short blob or an invalid base64 stage, a crypto error for a block-cipher
/// failure. A function of the blob alone, so equal inputs fail equally.
pub open spec fn meta_blob_error_of(blob: Seq<u8>) -> RncmError {
    let x = xor_const_spec(blob, 0x63);
    if x.len() < 22 {
        RncmError::EncodingError
    } else {
        match base64_decode_of(x.skip(22)) {
            Some(d) => RncmError::CryptoError,
            None => RncmError::EncodingError,
        }
    }
}

/// Recover the decrypted metadata text (still carrying its fixed literal
/// prefix) from the obfuscated metadata blob. A short or invalid base64
/// stage is an encoding error; a block-cipher failure is a crypto error.
pub fn decrypt_meta_blob(blob: Vec<u8>) -> (r: Result<Vec<u8>, RncmError>)
    ensures
        r is Ok <==> meta_plain_of(blob@) is Some,
        r matches Ok(m) ==> Some(m@) == meta_plain_of(blob@),
        r matches Err(e) ==> e == meta_blob_error_of(blob@) && meta_plain_of(blob@) is None,
{
    let whitened = xor(blob, 0x63);
    if whitened.len() < 22 {
        return Err(RncmError::EncodingError);
    }
    let encoded = skip_bytes(&whitened, 22);
    let decoded = match base64_decode(&encoded) {
        Some(d) => d,
        None => {
            return Err(RncmError::EncodingError);
        },
    };
    let key = meta_key();
    match aes_ecb_decrypt(&key, &decoded) {
        Some(plain) => Ok(plain),
        None => Err(RncmError::CryptoError),
    }
}

#[verifier::external_type_specification]
#[verifier::external_body]
pub struct ExJsonValue(JsonValue);

/// The JSON document that serde_json parses from the given bytes: a function
/// of the bytes alone; `None` on malformed JSON.
pub uninterp spec fn json_doc_of(text: Seq<u8>) -> Option<JsonValue>;

/// The member a JSON value holds under a string key, when it is an object
/// holding one.
pub uninterp spec fn json_member_of(v: JsonValue, key: Seq<char>) -> Option<JsonValue>;

/// Element `i` of a JSON value, when it is an array long enough.
pub uninterp spec fn json_elem_of(v: JsonValue, i: int) -> Option<JsonValue>;

/// The string content of a JSON value, when it is a string.
pub uninterp spec fn json_str_of(v: JsonValue) -> Option<Seq<char>>;

/// The value of a JSON value, when it is an integer that fits a u64.
pub uninterp spec fn json_u64_of(v: JsonValue) -> Option<u64>;

/// The elements of a JSON value, when it is an array.
pub uninterp spec fn json_elems_of(v: JsonValue) -> Option<Seq<JsonValue>>;

/// Relies on serde_json::from_slice to parse one JSON document from bytes,
/// deterministic in them; `None` exactly on malformed JSON.
#[verifier::external_body]
fn json_parse(data: &Vec<u8>) -> (r: Option<JsonValue>)
    ensures
        r matches Some(v) ==> json_doc_of(data@) == Some(v),
        r is None ==> json_doc_of(data@) is None,
{
    serde_json::from_slice(data.as_slice()).ok()
}

/// Relies on serde_json::Value::get with a string index: the value under
/// that key when `v` is an object holding it.
#[verifier::external_body]
fn json_get<'a>(v: &'a JsonValue, key: &str) -> (r: Option<&'a JsonValue>)
    ensures
        r matches Some(f) ==> json_member_of(*v, key@) == Some(*f),
        r is None ==> json_member_of(*v, key@) is None,
{
    v.get(key)
}

/// Relies on serde_json::Value::get with a numeric index: element `i` when
/// `v` is an array long enough.
#[verifier::external_body]
fn json_index<'a>(v: &'a JsonValue, i: usize) -> (r: Option<&'a JsonValue>)
    ensures
        r matches Some(f) ==> json_elem_of(*v, i as int) == Some(*f),
        r is None ==> json_elem_of(*v, i as int) is None,
{
    v.get(i)
}

/// Relies on serde_json::Value::as_str: the content of a JSON string.
#[verifier::external_body]
fn json_as_string(v: &JsonValue) -> (r: Option<String>)
    ensures
        opt_string(r) == json_str_of(*v),
{
    v.as_str().map(|s| s.to_string())
}

/// Relies on serde_json::Value::as_u64: the value of a non-negative JSON
/// integer.
#[verifier::external_body]
fn json_as_u64(v: &JsonValue) -> (r: Option<u64>)
    ensures
        r == json_u64_of(*v),
{
    v.as_u64()
}

/// Relies on serde_json::Value::as_array: the elements of a JSON array.
#[verifier::external_body]
fn json_as_array<'a>(v: &'a JsonValue) -> (r: Option<&'a Vec<JsonValue>>)
    ensures
        r matches Some(a) ==> json_elems_of(*v) == Some(a@),
        r is None ==> json_elems_of(*v) is None,
{
    v.as_array()
}

/// The structured record the metadata text denotes, as plain values.
pub ghost struct MetaRecord {
    pub format: Seq<char>,
    pub music_id: u32,
    pub music_name: Seq<char>,
    pub artist: Seq<(Seq<char>, u32)>,
    pub album: Seq<char>,
    pub album_id: u32,
    pub album_pic: Seq<char>,
}

/// The string under `key` of a record, when present.
pub open spec fn str_field(v: JsonValue, key: Seq<char>) -> Option<Seq<char>> {
    match json_member_of(v, key) {
        None => None,
        Some(f) => json_str_of(f),
    }
}

/// The 32-bit id under `key` of a record, when present and in range.
pub open spec fn u32_field(v: JsonValue, key: Seq<char>) -> Option<u32> {
    match json_member_of(v, key) {
        None => None,
        Some(f) => match json_u64_of(f) {
            None => None,
            Some(n) => if n <= 0xffffffff {
                Some(n as u32)
            } else {
                None
            },
        },
    }
}

/// One artist entry: a `[name, id]` pair.
pub open spec fn artist_of(e: JsonValue) -> Option<(Seq<char>, u32)> {
    match json_elem_of(e, 0) {
        None => None,
        Some(f) => match json_str_of(f) {
            None => None,
            Some(name) => match json_elem_of(e, 1) {
                None => None,
                Some(g) => match json_u64_of(g) {
                    None => None,
                    Some(n) => if n <= 0xffffffff {
                        Some((name, n as u32))
                    } else {
                        None
                    },
                },
            },
        },
    }
}

/// Every artist entry of the array, in order; `None` when any entry fails.
pub open spec fn artists_of(elems: Seq<JsonValue>) -> Option<Seq<(Seq<char>, u32)>>
    decreases elems.len(),
{
    if elems.len() == 0 {
        Some(Seq::empty())
    } else {
        match artists_of(elems.drop_last()) {
            None => None,
            Some(init) => match artist_of(elems.last()) {
                None => None,
                Some(p) => Some(init.push(p)),
            },
        }
    }
}

/// The ordered artist list under the `artist` key.
pub open spec fn artists_field(v: JsonValue) -> Option<Seq<(Seq<char>, u32)>> {
    match json_member_of(v, "artist"@) {
        None => None,
        Some(f) => match json_elems_of(f) {
            None => None,
            Some(es) => artists_of(es),
        },
    }
}

/// The whole record a JSON document denotes; `None` when any named field is
/// missing or of the wrong shape.
pub open spec fn record_of_doc(v: JsonValue) -> Option<MetaRecord> {
    if str_field(v, "format"@) is None || u32_field(v, "musicId"@) is None || str_field(
        v,
        "musicName"@,
    ) is None || artists_field(v) is None || str_field(v, "album"@) is None || u32_field(
        v,
        "albumId"@,
    ) is None || str_field(v, "albumPic"@) is None {
        None
    } else {
        Some(
            MetaRecord {
                format: str_field(v, "format"@).unwrap(),
                music_id: u32_field(v, "musicId"@).unwrap(),
                music_name: str_field(v, "musicName"@).unwrap(),
                artist: artists_field(v).unwrap(),
                album: str_field(v, "album"@).unwrap(),
                album_id: u32_field(v, "albumId"@).unwrap(),
                album_pic: str_field(v, "albumPic"@).unwrap(),
            },
        )
    }
}

/// The structured record the metadata text denotes, through the JSON parse.
pub open spec fn meta_record_of(text: Seq<u8>) -> Option<MetaRecord> {
    match json_doc_of(text) {
        None => None,
        Some(v) => record_of_doc(v),
    }
}

/// An exec artist list viewed as the plain pairs it holds.
pub open spec fn artist_pairs_view(a: Seq<(String, u32)>) -> Seq<(Seq<char>, u32)> {
    a.map_values(|p: (String, u32)| (p.0@, p.1))
}

/// The string under `key`, or an encoding error.
fn field_string(v: &JsonValue, key: &str) -> (r: Result<String, RncmError>)
    ensures
        r is Ok <==> str_field(*v, key@) is Some,
        r matches Ok(s) ==> Some(s@) == str_field(*v, key@),
        r matches Err(e) ==> e == RncmError::EncodingError,
{
    match json_get(v, key) {
        Some(f) => match json_as_string(f) {
            Some(s) => Ok(s),
            None => Err(RncmError::EncodingError),
        },
        None => Err(RncmError::EncodingError),
    }
}

/// The 32-bit id under `key`, or an encoding error.
fn field_u32(v: &JsonValue, key: &str) -> (r: Result<u32, RncmError>)
    ensures
        r is Ok <==> u32_field(*v, key@) is Some,
        r matches Ok(n) ==> Some(n) == u32_field(*v, key@),
        r matches Err(e) ==> e == RncmError::EncodingError,
{
    match json_get(v, key) {
        Some(f) => match json_as_u64(f) {
            Some(n) => if n <= 0xffff_ffff {
                Ok(n as u32)
            } else {
                Err(RncmError::EncodingError)
            },
            None => Err(RncmError::EncodingError),
        },
        None => Err(RncmError::EncodingError),
    }
}

/// A failing entry anywhere fails the whole artist walk.
proof fn lemma_artists_of_none(elems: Seq<JsonValue>, i: int)
    requires
        0 <= i < elems.len(),
        artist_of(elems[i]) is None,
    ensures
        artists_of(elems) is None,
    decreases elems.len(),
{
    if i == elems.len() - 1 {
        assert(elems.last() == elems[i]);
    } else {
        assert(elems.drop_last()[i] == elems[i]);
        lemma_artists_of_none(elems.drop_last(), i);
    }
}

/// The ordered artist list under `artist`: each element a `[name, id]` pair.
fn field_artists(v: &JsonValue) -> (r: Result<Vec<(String, u32)>, RncmError>)
    ensures
        r is Ok <==> artists_field(*v) is Some,
        r matches Ok(a) ==> Some(artist_pairs_view(a@)) == artists_field(*v),
        r matches Err(e) ==> e == RncmError::EncodingError,
{
    let arr = match json_get(v, "artist") {
        Some(f) => match json_as_array(f) {
            Some(a) => a,
            None => {
                return Err(RncmError::EncodingError);
            },
        },
        None => {
            return Err(RncmError::EncodingError);
        },
    };
    let ghost elems = arr@;
    let mut artists: Vec<(String, u32)> = Vec::new();
    let mut i: usize = 0;
    while i < arr.len()
        invariant
            i <= elems.len(),
            elems == arr@,
            json_elems_of(json_member_of(*v, "artist"@).unwrap()) == Some(elems),
            json_member_of(*v, "artist"@) is Some,
            artists_of(elems.take(i as int)) == Some(artist_pairs_view(artists@)),
        decreases elems.len() - i,
    {
        let name = match json_index(&arr[i], 0) {
            Some(f) => match json_as_string(f) {
                Some(s) => s,
                None => {
                    proof {
                        lemma_artists_of_none(elems, i as int);
                    }
                    return Err(RncmError::EncodingError);
                },
            },
            None => {
                proof {
                    lemma_artists_of_none(elems, i as int);
                }
                return Err(RncmError::EncodingError);
            },
        };
        let id = match json_index(&arr[i], 1) {
            Some(f) => match json_as_u64(f) {
                Some(n) => if n <= 0xffff_ffff {
                    n as u32
                } else {
                    proof {
                        lemma_artists_of_none(elems, i as int);
                    }
                    return Err(RncmError::EncodingError);
                },
                None => {
                    proof {
                        lemma_artists_of_none(elems, i as int);
                    }
                    return Err(RncmError::EncodingError);
                },
            },
            None => {
                proof {
                    lemma_artists_of_none(elems, i as int);
                }
                return Err(RncmError::EncodingError);
            },
        };
        artists.push((name, id));
        proof {
            let t = elems.take(i as int + 1);
            assert(t.drop_last() =~= elems.take(i as int));
            assert(t.last() == elems[i as int]);
            assert(artist_pairs_view(artists@) =~= artist_pairs_view(artists@.drop_last()).push(
                (name@, id),
            ));
        }
        i = i + 1;
    }
    proof {
        assert(elems.take(elems.len() as int) =~= elems);
    }
    Ok(artists)
}

/// Decode the decrypted metadata text into the structured record and fill
/// the cover fields from the container's image bytes. The fixed 6-byte
/// literal prefix (`music:`) is dropped; what follows must denote a record
/// holding every named field, else this is an encoding error — success comes
/// exactly when `meta_record_of` accepts the text, and the returned fields
/// equal that record's. An unrecognized cover is not an error: the cover
/// fields are left empty.
pub fn decode_metadata(meta: &Vec<u8>, image: &Vec<u8>) -> (r: Result<Metadata, RncmError>)
    ensures
        r is Ok <==> (meta@.len() >= 6 && meta_record_of(meta@.skip(6)) is Some),
        r matches Err(e) ==> e == RncmError::EncodingError,
        r matches Ok(m) ==> ({
            let rec = meta_record_of(meta@.skip(6)).unwrap();
            &&& m.format@ == rec.format
            &&& m.music_id == rec.music_id
            &&& m.music_name@ == rec.music_name
            &&& artist_pairs_view(m.artist@) == rec.artist
            &&& m.album@ == rec.album
            &&& m.album_id == rec.album_id
            &&& m.album_pic@ == rec.album_pic
            &&& match image_type_spec(image@) {
                Some(t) => m.album_pic_type@ == t && m.album_pic_data@ == image@,
                None => m.album_pic_type@ == Seq::<char>::empty() && m.album_pic_data@
                    == Seq::<u8>::empty(),
            }
        }),
{
    if meta.len() < 6 {
        return Err(RncmError::EncodingError);
    }
    let text = skip_bytes(meta, 6);
    let doc = match json_parse(&text) {
        Some(d) => d,
        None => {
            return Err(RncmError::EncodingError);
        },
    };
    let format = match field_string(&doc, "format") {
        Ok(s) => s,
        Err(e) => {
            return Err(e);
        },
    };
    let music_id = match field_u32(&doc, "musicId") {
        Ok(n) => n,
        Err(e) => {
            return Err(e);
        },
    };
    let music_name = match field_string(&doc, "musicName") {
        Ok(s) => s,
        Err(e) => {
            return Err(e);
        },
    };
    let artist = match field_artists(&doc) {
        Ok(a) => a,
        Err(e) => {
            return Err(e);
        },
    };
    let album = match field_string(&doc, "album") {
        Ok(s) => s,
        Err(e) => {
            return Err(e);
        },
    };
    let album_id = match field_u32(&doc, "albumId") {
        Ok(n) => n,
        Err(e) => {
            return Err(e);
        },
    };
    let album_pic = match field_string(&doc, "albumPic") {
        Ok(s) => s,
        Err(e) => {
            return Err(e);
        },
    };
    proof {
        assert(meta_record_of(meta@.skip(6)) == record_of_doc(doc));
        assert(record_of_doc(doc) is Some);
    }
    let (album_pic_type, album_pic_data) = match image_type(image) {
        Some(t) => (t, image.clone()),
        None => (String::new(), Vec::new()),
    };
    Ok(
        Metadata {
            format,
            music_id,
            music_name,
            artist,
            album,
            album_id,
            album_pic,
            album_pic_type,
            album_pic_data,
        },
    )
}

/// Map the metadata's format field to the closed target set: `flac` and
/// `mp3` are the known targets, anything else is unsupported.
pub fn parse_format(s: &String) -> (r: TargetFormat)
    ensures
        r is Flac <==> s@ == "flac"@,
        r is Mp3 <==> s@ == "mp3"@,
{
    proof {
        reveal_strlit("flac");
        reveal_strlit("mp3");
        assert("flac"@.len() == 4);
        assert("mp3"@.len() == 3);
    }
    let flac = String::from_str("flac");
    let mp3 = String::from_str("mp3");
    if *s == flac {
        TargetFormat::Flac
    } else if *s == mp3 {
        TargetFormat::Mp3
    } else {
        TargetFormat::Unsupported
    }
}

impl Tag {
    /// Build the format-agnostic tag from the recovered metadata: the target
    /// format mapped through `parse_format`, the title, album and cover
    /// carried over, and the artist names projected out of the ordered
    /// `(name, id)` list.
    pub fn from(item: Metadata) -> (t: Tag)
        ensures
            t.format is Flac <==> item.format@ == "flac"@,
            t.format is Mp3 <==> item.format@ == "mp3"@,
            t.name == item.music_name,
            t.album == item.album,
            t.album_pic_type == item.album_pic_type,
            t.album_pic_data == item.album_pic_data,
            t.artist@.len() == item.artist@.len(),
            forall|i: int| 0 <= i < t.artist@.len() ==> t.artist@[i] == item.artist@[i].0,
    {
        let format = parse_format(&item.format);
        let mut names: Vec<String> = Vec::new();
        let mut i: usize = 0;
        while i < item.artist.len()
            invariant
                i <= item.artist@.len(),
                names@.len() == i,
                forall|k: int| 0 <= k < i ==> names@[k] == item.artist@[k].0,
            decreases item.artist@.len() - i,
        {
            let name = item.artist[i].0.clone();
            names.push(name);
            i = i + 1;
        }
        Tag {
            format,
            name: item.music_name,
            artist: names,
            album: item.album,
            album_pic_type: item.album_pic_type,
            album_pic_data: item.album_pic_data,
        }
    }
}

} // verus!
