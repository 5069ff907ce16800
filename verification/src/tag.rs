use vstd::prelude::*;
use vstd::string::StringExecFns;

use id3::Tag as Id3Tag;
use id3::TagLike;
use metaflac::Tag as FlacTag;

use crate::crypto::skip_bytes;
use crate::flac_check::flac_wf;
use crate::flac_check::flac_wf_check;

verus! {

/// The closed set of rewrite targets. Anything the decoder does not
/// recognize is `Unsupported` and passes the audio through unchanged.
#[derive(Clone, Copy, Debug, PartialEq, Eq, Structural)]
pub enum TargetFormat {
    Flac,
    Mp3,
    Unsupported,
}

/// The non-fatal outcomes of tag rewriting. Each one degrades to a
/// pass-through of the audio bytes instead of aborting the run.
#[derive(Clone, Copy, Debug, PartialEq, Eq, Structural)]
pub enum TagWarning {
    /// The leading tag structure of the audio could not be read.
    UnreadableTag,
    /// The rewritten tag structure could not be serialized.
    WriteFailed,
    /// The target format is not one the rewriter knows.
    UnsupportedFormat,
}

/// The recovered metadata and cover, ready to be written into the target
/// container. An empty `album_pic_type` means no recognized cover: embedding
/// is skipped.
pub struct Tag {
    pub format: TargetFormat,
    pub name: String,
    pub artist: Vec<String>,
    pub album: String,
    pub album_pic_type: String,
    pub album_pic_data: Vec<u8>,
}

impl Tag {
    /// An empty tag with the unsupported target format.
    pub fn new() -> (t: Tag)
        ensures
            t.format is Unsupported,
            t.name@ == Seq::<char>::empty(),
            t.artist@ == Seq::<String>::empty(),
            t.album@ == Seq::<char>::empty(),
            t.album_pic_type@ == Seq::<char>::empty(),
            t.album_pic_data@ == Seq::<u8>::empty(),
    {
        Tag {
            format: TargetFormat::Unsupported,
            name: String::new(),
            artist: Vec::new(),
            album: String::new(),
            album_pic_type: String::new(),
            album_pic_data: Vec::new(),
        }
    }
}

/// `out` ends with exactly the bytes of `inp` from position `k` on: the
/// audio frames after the rewritten tag region are preserved byte for byte.
pub open spec fn appends_suffix(out: Seq<u8>, inp: Seq<u8>, k: int) -> bool {
    &&& 0 <= k <= inp.len()
    &&& out.len() >= inp.len() - k
    &&& out.subrange(out.len() - (inp.len() - k), out.len() as int) == inp.subrange(
        k,
        inp.len() as int,
    )
}

/// The artist names joined into one value with `/` separators; the MP3 tag
/// carries the ordered artist list as this single joined value.
pub open spec fn joined_spec(names: Seq<Seq<char>>) -> Seq<char>
    decreases names.len(),
{
    if names.len() == 0 {
        Seq::empty()
    } else if names.len() == 1 {
        names[0]
    } else {
        joined_spec(names.drop_last()) + seq!['/'] + names.last()
    }
}

/// Join the artist names with `/` separators, preserving their order.
pub fn join_artists(names: &Vec<String>) -> (r: String)
    ensures
        r@ == joined_spec(names@.map_values(|s: String| s@)),
{
    let ghost m = names@.map_values(|s: String| s@);
    let mut r = String::new();
    let mut i: usize = 0;
    while i < names.len()
        invariant
            i <= names@.len(),
            m == names@.map_values(|s: String| s@),
            r@ == joined_spec(m.take(i as int)),
        decreases names@.len() - i,
    {
        if i > 0 {
            r.append("/");
        }
        r.append(names[i].as_str());
        proof {
            reveal_strlit("/");
            let t = m.take(i as int + 1);
            assert(t.drop_last() =~= m.take(i as int));
            assert(t.last() == names@[i as int]@);
            assert(r@ =~= joined_spec(t));
        }
        i = i + 1;
    }
    proof {
        assert(m.take(m.len() as int) =~= m);
    }
    r
}

#[verifier::external_type_specification]
#[verifier::external_body]
pub struct ExFlacTag(FlacTag);

#[verifier::external_type_specification]
#[verifier::external_body]
pub struct ExId3Tag(Id3Tag);

/// How many leading bytes of a byte stream the FLAC metadata reader
/// consumes — the `fLaC` marker and the metadata blocks — as a function of
/// the bytes alone; `None` when they do not parse as such a region.
pub uninterp spec fn flac_tag_region_of(data: Seq<u8>) -> Option<nat>;

/// How many leading bytes the ID3 tag reader consumes — the tag header and
/// the frame bytes it reads — as a function of the bytes alone; `None` when
/// no well-formed ID3 tag leads the bytes.
pub uninterp spec fn id3_tag_region_of(data: Seq<u8>) -> Option<nat>;

/// Relies on FlacTag::read_from: parses the leading `fLaC` marker and
/// metadata blocks, deterministic in the bytes, consuming only bytes it
/// read, so never more than the input holds. The block bodies it slices by
/// their declared lengths are admitted only after `flac_wf` has bounded
/// every such length, so the call cannot index out of range.
#[verifier::external_body]
fn flac_read_tag(input: &Vec<u8>) -> (r: Option<(FlacTag, usize)>)
    requires
        flac_wf(input@),
    ensures
        r matches Some(p) ==> Some(p.1 as nat) == flac_tag_region_of(input@) && p.1
            <= input@.len(),
        r is None ==> flac_tag_region_of(input@) is None,
{
    let mut cur = std::io::Cursor::new(input.as_slice());
    match FlacTag::read_from(&mut cur) {
        Ok(t) => Some((t, cur.position() as usize)),
        Err(_) => None,
    }
}

/// Relies on FlacTag::add_picture: adds one front-cover picture block
/// with the given MIME type and data, removing any previous front cover.
#[verifier::external_body]
fn flac_add_cover(tag: &mut FlacTag, mime: String, data: Vec<u8>) {
    tag.add_picture(mime, metaflac::block::PictureType::CoverFront, data);
}

/// Relies on FlacTag::vorbis_comments_mut and
/// VorbisComment::set_title: sets the title comment field.
#[verifier::external_body]
fn flac_set_title(tag: &mut FlacTag, title: String) {
    tag.vorbis_comments_mut().set_title(vec![title]);
}

/// Relies on FlacTag::vorbis_comments_mut and
/// VorbisComment::set_album: sets the album comment field.
#[verifier::external_body]
fn flac_set_album(tag: &mut FlacTag, album: String) {
    tag.vorbis_comments_mut().set_album(vec![album]);
}

/// Relies on FlacTag::vorbis_comments_mut and
/// VorbisComment::set_artist: stores the ordered artist list as a
/// multi-value comment field.
#[verifier::external_body]
fn flac_set_artist(tag: &mut FlacTag, artists: Vec<String>) {
    tag.vorbis_comments_mut().set_artist(artists);
}

/// Relies on FlacTag::write_to: serializes the `fLaC` marker and all
/// metadata blocks; `None` guards the write-error path, which a vector sink
/// does not take. A block longer than its 3-byte length field can express is
/// truncated silently by the crate, not reported.
#[verifier::external_body]
fn flac_write_tag(tag: &mut FlacTag) -> (r: Option<Vec<u8>>) {
    let mut out: Vec<u8> = Vec::new();
    match tag.write_to(&mut out) {
        Ok(()) => Some(out),
        Err(_) => None,
    }
}

/// The outcome of looking for a leading ID3 tag.
enum Id3Read {
    /// A tag was decoded; the `usize` is how many leading bytes it took.
    Parsed(Id3Tag, usize),
    /// The bytes carry no ID3 tag at all.
    Absent,
    /// A tag seems present but could not be decoded.
    Unreadable,
}

/// Relies on Id3Tag::read_from: decodes a leading ID3v2 tag, deterministic
/// in the bytes, consuming only bytes it read; a `NoTag` error means the
/// bytes carry no ID3 tag at all. On both failures no well-formed tag leads
/// the bytes, so the region is `None`.
#[verifier::external_body]
#[allow(deprecated)]
fn id3_read_tag(input: &Vec<u8>) -> (r: Id3Read)
    ensures
        r matches Id3Read::Parsed(t, n) ==> Some(n as nat) == id3_tag_region_of(input@) && n
            <= input@.len(),
        r is Absent ==> id3_tag_region_of(input@) is None,
        r is Unreadable ==> id3_tag_region_of(input@) is None,
{
    let mut cur = std::io::Cursor::new(input.as_slice());
    match Id3Tag::read_from(&mut cur) {
        Ok(t) => Id3Read::Parsed(t, cur.position() as usize),
        Err(e) => match e.kind {
            id3::ErrorKind::NoTag => Id3Read::Absent,
            _ => Id3Read::Unreadable,
        },
    }
}

/// Relies on Id3Tag::new: a fresh tag with no frames.
#[verifier::external_body]
fn id3_new_tag() -> (r: Id3Tag) {
    Id3Tag::new()
}

/// Relies on id3::TagLike::set_title: sets the title text frame.
#[verifier::external_body]
fn id3_set_title(tag: &mut Id3Tag, title: String) {
    tag.set_title(title);
}

/// Relies on id3::TagLike::set_album: sets the album text frame.
#[verifier::external_body]
fn id3_set_album(tag: &mut Id3Tag, album: String) {
    tag.set_album(album);
}

/// Relies on id3::TagLike::set_artist: sets the artist text frame.
#[verifier::external_body]
fn id3_set_artist(tag: &mut Id3Tag, artist: String) {
    tag.set_artist(artist);
}

/// Relies on id3::TagLike::add_picture: adds one front-cover picture frame
/// with an empty description, replacing any previous picture whose
/// description is also empty (one with a non-empty description survives).
#[verifier::external_body]
#[allow(deprecated)]
fn id3_add_cover(tag: &mut Id3Tag, mime: String, data: Vec<u8>) {
    tag.add_picture(id3::frame::Picture {
        mime_type: mime,
        picture_type: id3::frame::PictureType::CoverFront,
        description: String::new(),
        data,
    });
}

/// Relies on Id3Tag::write_to with version ID3v2.4: serializes the tag;
/// `None` when encoding fails.
#[verifier::external_body]
fn id3_write_tag(tag: &Id3Tag) -> (r: Option<Vec<u8>>) {
    let mut out: Vec<u8> = Vec::new();
    match tag.write_to(&mut out, id3::Version::Id3v24) {
        Ok(()) => Some(out),
        Err(_) => None,
    }
}

/// Prepend freshly serialized tag bytes to the input's suffix from `n` on.
fn splice(mut tag_bytes: Vec<u8>, input: &Vec<u8>, n: usize) -> (r: Vec<u8>)
    requires
        n <= input@.len(),
    ensures
        appends_suffix(r@, input@, n as int),
{
    let mut suffix = skip_bytes(input, n);
    tag_bytes.append(&mut suffix);
    proof {
        assert(input@.skip(n as int) =~= input@.subrange(n as int, input@.len() as int));
        assert(tag_bytes@.subrange(
            tag_bytes@.len() - (input@.len() - n),
            tag_bytes@.len() as int,
        ) =~= input@.subrange(n as int, input@.len() as int));
    }
    tag_bytes
}

/// Rewrite the leading FLAC metadata region: add the cover (when one was
/// recognized), set title, album, and the multi-value artist field, and
/// keep every byte after the original metadata region unchanged.
fn rewrite_flac(input: Vec<u8>, tag: &Tag) -> (r: (Vec<u8>, Option<TagWarning>))
    ensures
        r.1 is None ==> flac_wf(input@) && (flac_tag_region_of(input@) matches Some(n)
            && appends_suffix(r.0@, input@, n as int)),
        r.1 matches Some(w) ==> r.0@ == input@ && (w == TagWarning::UnreadableTag || w
            == TagWarning::WriteFailed),
        r.1 == Some(TagWarning::UnreadableTag) <==> (!flac_wf(input@) || flac_tag_region_of(
            input@,
        ) is None),
{
    if !flac_wf_check(&input) {
        return (input, Some(TagWarning::UnreadableTag));
    }
    match flac_read_tag(&input) {
        None => (input, Some(TagWarning::UnreadableTag)),
        Some((ftag, n)) => {
            let mut ftag = ftag;
            if !tag.album_pic_type.as_str().is_empty() {
                flac_add_cover(&mut ftag, tag.album_pic_type.clone(), tag.album_pic_data.clone());
            }
            flac_set_title(&mut ftag, tag.name.clone());
            flac_set_album(&mut ftag, tag.album.clone());
            flac_set_artist(&mut ftag, tag.artist.clone());
            match flac_write_tag(&mut ftag) {
                None => (input, Some(TagWarning::WriteFailed)),
                Some(out) => (splice(out, &input, n), None),
            }
        },
    }
}

/// Set the fields of an ID3 tag and splice it onto the audio suffix.
fn finish_mp3(mtag: Id3Tag, n: usize, input: Vec<u8>, tag: &Tag) -> (r: (
    Vec<u8>,
    Option<TagWarning>,
))
    requires
        n <= input@.len(),
    ensures
        r.1 is None ==> appends_suffix(r.0@, input@, n as int),
        r.1 matches Some(w) ==> r.0@ == input@ && w == TagWarning::WriteFailed,
{
    let mut mtag = mtag;
    id3_set_title(&mut mtag, tag.name.clone());
    id3_set_album(&mut mtag, tag.album.clone());
    id3_set_artist(&mut mtag, join_artists(&tag.artist));
    if !tag.album_pic_type.as_str().is_empty() {
        id3_add_cover(&mut mtag, tag.album_pic_type.clone(), tag.album_pic_data.clone());
    }
    match id3_write_tag(&mtag) {
        None => (input, Some(TagWarning::WriteFailed)),
        Some(out) => (splice(out, &input, n), None),
    }
}

/// Rewrite (or create, when none leads the audio) the ID3 tag: title, album,
/// the joined artist value, and the cover when one was recognized; every
/// byte after the original tag region is kept unchanged.
fn rewrite_mp3(input: Vec<u8>, tag: &Tag) -> (r: (Vec<u8>, Option<TagWarning>))
    ensures
        r.1 is None ==> (id3_tag_region_of(input@) matches Some(n) && appends_suffix(
            r.0@,
            input@,
            n as int,
        )) || (id3_tag_region_of(input@) is None && appends_suffix(r.0@, input@, 0)),
        r.1 matches Some(w) ==> r.0@ == input@ && (w == TagWarning::UnreadableTag || w
            == TagWarning::WriteFailed),
        r.1 == Some(TagWarning::UnreadableTag) ==> id3_tag_region_of(input@) is None,
{
    match id3_read_tag(&input) {
        Id3Read::Unreadable => (input, Some(TagWarning::UnreadableTag)),
        Id3Read::Absent => finish_mp3(id3_new_tag(), 0, input, tag),
        Id3Read::Parsed(t, n) => finish_mp3(t, n, input, tag),
    }
}

/// Write the recovered metadata and cover into the decrypted audio's tag
/// container. Fatal never: a failure is reported as a warning and the audio
/// bytes pass through unchanged; on success only the tag region is replaced
/// and the audio-frame suffix is preserved byte for byte.
pub fn rewrite_tag(input: Vec<u8>, tag: Tag) -> (r: (Vec<u8>, Option<TagWarning>))
    ensures
        r.1 matches Some(w) ==> r.0@ == input@,
        r.1 is None ==> exists|k: int| appends_suffix(r.0@, input@, k),
        tag.format is Unsupported <==> r.1 == Some(TagWarning::UnsupportedFormat),
        tag.format is Unsupported ==> r.0@ == input@,
        tag.format is Flac && r.1 is None ==> flac_wf(input@) && (flac_tag_region_of(
            input@,
        ) matches Some(n) && appends_suffix(r.0@, input@, n as int)),
        tag.format is Flac ==> (r.1 == Some(TagWarning::UnreadableTag) <==> (!flac_wf(input@)
            || flac_tag_region_of(input@) is None)),
        tag.format is Mp3 && r.1 is None ==> (id3_tag_region_of(input@) matches Some(n)
            && appends_suffix(r.0@, input@, n as int)) || (id3_tag_region_of(input@) is None
            && appends_suffix(r.0@, input@, 0)),
        tag.format is Mp3 && r.1 == Some(TagWarning::UnreadableTag) ==> id3_tag_region_of(
            input@,
        ) is None,
{
    match tag.format {
        TargetFormat::Flac => rewrite_flac(input, &tag),
        TargetFormat::Mp3 => rewrite_mp3(input, &tag),
        TargetFormat::Unsupported => (input, Some(TagWarning::UnsupportedFormat)),
    }
}

} // verus!
