use vstd::prelude::*;

use crate::error::RncmError;

verus! {

/// The fixed 8-byte container signature, the ASCII bytes of `CTENFDAM`.
pub open spec fn magic_spec() -> Seq<u8> {
    seq![0x43u8, 0x54u8, 0x45u8, 0x4eu8, 0x46u8, 0x44u8, 0x41u8, 0x4du8]
}

/// The little-endian 32-bit value stored at `off`.
pub open spec fn le32_spec(s: Seq<u8>, off: int) -> int
    recommends
        0 <= off,
        off + 4 <= s.len(),
{
    s[off] + s[off + 1] * 0x100 + s[off + 2] * 0x10000 + s[off + 3] * 0x1000000
}

/// End of the key segment: 8 magic + 2 reserved + 4 length + key bytes.
pub open spec fn key_end_of(s: Seq<u8>) -> int {
    14 + le32_spec(s, 10)
}

/// End of the metadata segment: key end + 4 length + metadata bytes.
pub open spec fn meta_end_of(s: Seq<u8>) -> int {
    key_end_of(s) + 4 + le32_spec(s, key_end_of(s))
}

/// The declared space reserved for the image, after 5 reserved bytes.
pub open spec fn img_space_of(s: Seq<u8>) -> int {
    le32_spec(s, meta_end_of(s) + 5)
}

/// The declared size of the image within its reserved space.
pub open spec fn img_size_of(s: Seq<u8>) -> int {
    le32_spec(s, meta_end_of(s) + 9)
}

/// First byte of the image: metadata end + 5 reserved + two 4-byte lengths.
pub open spec fn img_start_of(s: Seq<u8>) -> int {
    meta_end_of(s) + 13
}

/// The fixed binary layout: magic, 2 reserved bytes, the length-prefixed key
/// and metadata segments, 5 reserved bytes, the image space/size fields, the
/// image and its padding, and the audio payload running to the end.
/// `None` when the signature is wrong or any declared length overruns the
/// input; otherwise the four raw segments (key, metadata, image, audio).
pub open spec fn parse_spec(s: Seq<u8>) -> Option<(Seq<u8>, Seq<u8>, Seq<u8>, Seq<u8>)> {
    if s.len() < 14 {
        None
    } else if s.subrange(0, 8) != magic_spec() {
        None
    } else if key_end_of(s) + 4 > s.len() {
        None
    } else if meta_end_of(s) + 13 > s.len() {
        None
    } else if img_size_of(s) > img_space_of(s) || img_start_of(s) + img_space_of(s) > s.len() {
        None
    } else {
        Some(
            (
                s.subrange(14, key_end_of(s)),
                s.subrange(key_end_of(s) + 4, meta_end_of(s)),
                s.subrange(img_start_of(s), img_start_of(s) + img_size_of(s)),
                s.subrange(img_start_of(s) + img_space_of(s), s.len() as int),
            ),
        )
    }
}

/// The still-obfuscated segments of one container, exactly as they stand in
/// the input. Decryption happens downstream.
#[derive(Debug)]
pub struct Container {
    pub key_blob: Vec<u8>,
    pub meta_blob: Vec<u8>,
    pub image: Vec<u8>,
    pub audio: Vec<u8>,
}

/// Read the little-endian 32-bit length field at `off`.
pub(crate) fn read_le32(input: &Vec<u8>, off: usize) -> (r: u32)
    requires
        off + 4 <= input@.len(),
    ensures
        r == le32_spec(input@, off as int),
{
    let bound = input.len();
    proof {
        assert(off + 4 <= bound);
    }
    (input[off] as u32) + (input[off + 1] as u32) * 0x100 + (input[off + 2] as u32) * 0x10000
        + (input[off + 3] as u32) * 0x1000000
}

/// Copy `v[start..end]` into a fresh vector.
fn copy_range(v: &Vec<u8>, start: usize, end: usize) -> (r: Vec<u8>)
    requires
        start <= end,
        end <= v@.len(),
    ensures
        r@ == v@.subrange(start as int, end as int),
{
    let mut out: Vec<u8> = Vec::new();
    let mut i: usize = start;
    while i < end
        invariant
            start <= i <= end,
            end <= v@.len(),
            out@.len() == i - start,
            forall|k: int| 0 <= k < out@.len() ==> out@[k] == v@[start + k],
        decreases end - i,
    {
        out.push(v[i]);
        i = i + 1;
    }
    proof {
        assert(out@ =~= v@.subrange(start as int, end as int));
    }
    out
}

/// Parse the fixed container layout into its four raw segments.
/// Succeeds exactly on the inputs that `parse_spec` accepts; every rejected
/// input gets `MalformedContainer` and no partial container.
pub fn parse_container(input: &Vec<u8>) -> (r: Result<Container, RncmError>)
    ensures
        r is Ok <==> parse_spec(input@) is Some,
        r matches Ok(c) ==> {
            let segs = parse_spec(input@).unwrap();
            &&& c.key_blob@ == segs.0
            &&& c.meta_blob@ == segs.1
            &&& c.image@ == segs.2
            &&& c.audio@ == segs.3
        },
        r matches Err(e) ==> e == RncmError::MalformedContainer,
{
    let n = input.len();
    if n < 14 {
        return Err(RncmError::MalformedContainer);
    }
    if !(input[0] == 0x43 && input[1] == 0x54 && input[2] == 0x45 && input[3] == 0x4e
        && input[4] == 0x46 && input[5] == 0x44 && input[6] == 0x41 && input[7] == 0x4d) {
        proof {
            assert(input@.subrange(0, 8) != magic_spec()) by {
                if input@.subrange(0, 8) == magic_spec() {
                    assert(forall|k: int|
                        0 <= k < 8 ==> input@[k] == #[trigger] input@.subrange(0, 8)[k]);
                }
            }
        }
        return Err(RncmError::MalformedContainer);
    }
    proof {
        assert(input@.subrange(0, 8) =~= magic_spec());
    }

    let l1 = read_le32(input, 10) as usize;
    if l1 > n - 14 || n - (14 + l1) < 4 {
        return Err(RncmError::MalformedContainer);
    }
    let key_end = 14 + l1;
    let key_blob = copy_range(input, 14, key_end);

    let l2 = read_le32(input, key_end) as usize;
    if l2 > n - (key_end + 4) || n - (key_end + 4 + l2) < 13 {
        return Err(RncmError::MalformedContainer);
    }
    let meta_end = key_end + 4 + l2;
    let meta_blob = copy_range(input, key_end + 4, meta_end);

    let space = read_le32(input, meta_end + 5) as usize;
    let size = read_le32(input, meta_end + 9) as usize;
    let img_start = meta_end + 13;
    if size > space || space > n - img_start {
        return Err(RncmError::MalformedContainer);
    }
    let image = copy_range(input, img_start, img_start + size);
    let audio = copy_range(input, img_start + space, n);

    Ok(Container { key_blob, meta_blob, image, audio })
}

/// The four bytes of a little-endian 32-bit length field.
pub open spec fn le32_bytes(n: int) -> Seq<u8> {
    seq![
        (n % 256) as u8,
        ((n / 256) % 256) as u8,
        ((n / 65536) % 256) as u8,
        ((n / 16777216) % 256) as u8,
    ]
}

/// Re-encoding the value of a length field gives back its four bytes.
proof fn lemma_le32_bytes_inverse(s: Seq<u8>, off: int)
    requires
        0 <= off,
        off + 4 <= s.len(),
    ensures
        le32_bytes(le32_spec(s, off)) == s.subrange(off, off + 4),
{
    let b0 = s[off] as int;
    let b1 = s[off + 1] as int;
    let b2 = s[off + 2] as int;
    let b3 = s[off + 3] as int;
    let n = le32_spec(s, off);
    assert(n == b0 + b1 * 0x100 + b2 * 0x10000 + b3 * 0x1000000);
    assert(n % 256 == b0 && (n / 256) % 256 == b1 && (n / 65536) % 256 == b2 && (n / 16777216)
        % 256 == b3) by (nonlinear_arith)
        requires
            n == b0 + b1 * 0x100 + b2 * 0x10000 + b3 * 0x1000000,
            0 <= b0 < 256,
            0 <= b1 < 256,
            0 <= b2 < 256,
            0 <= b3 < 256,
    ;
    assert(le32_bytes(n) =~= s.subrange(off, off + 4));
}

/// Structural round trip: for any container the parser accepts,
/// re-serializing the four extracted segments — the fixed signature, the
/// reserved bytes, each segment behind its re-encoded little-endian length
/// field, and the image padding — reproduces the original input exactly.
#[verifier::rlimit(50)]
pub proof fn lemma_parse_round_trip(s: Seq<u8>)
    requires
        parse_spec(s) is Some,
    ensures
        ({
            let segs = parse_spec(s).unwrap();
            s == magic_spec() + s.subrange(8, 10) + le32_bytes(segs.0.len() as int) + segs.0
                + le32_bytes(segs.1.len() as int) + segs.1 + s.subrange(
                meta_end_of(s),
                meta_end_of(s) + 5,
            ) + le32_bytes(img_space_of(s)) + le32_bytes(segs.2.len() as int) + segs.2 + s.subrange(
                img_start_of(s) + segs.2.len(),
                img_start_of(s) + img_space_of(s),
            ) + segs.3
        }),
{
    let segs = parse_spec(s).unwrap();
    let key_end = key_end_of(s);
    let meta_end = meta_end_of(s);
    let img_start = img_start_of(s);
    assert(segs.0.len() == le32_spec(s, 10));
    assert(segs.1.len() == le32_spec(s, key_end));
    assert(segs.2.len() == img_size_of(s));
    lemma_le32_bytes_inverse(s, 10);
    lemma_le32_bytes_inverse(s, key_end);
    lemma_le32_bytes_inverse(s, meta_end + 5);
    lemma_le32_bytes_inverse(s, meta_end + 9);
    assert(s =~= magic_spec() + s.subrange(8, 10) + s.subrange(10, 14) + s.subrange(14, key_end)
        + s.subrange(key_end, key_end + 4) + s.subrange(key_end + 4, meta_end) + s.subrange(
        meta_end,
        meta_end + 5,
    ) + s.subrange(meta_end + 5, meta_end + 9) + s.subrange(meta_end + 9, meta_end + 13)
        + s.subrange(img_start, img_start + img_size_of(s)) + s.subrange(
        img_start + img_size_of(s),
        img_start + img_space_of(s),
    ) + s.subrange(img_start + img_space_of(s), s.len() as int));
}

/// Any input whose first 8 bytes differ from the fixed signature (or that is
/// too short to hold one) is rejected.
pub proof fn lemma_bad_magic_rejected(s: Seq<u8>)
    requires
        s.len() < 8 || s.subrange(0, 8) != magic_spec(),
    ensures
        parse_spec(s) is None,
{
}

/// A key-segment length field that makes the segment (or the length field
/// after it) overrun the available input is rejected.
pub proof fn lemma_key_overrun_rejected(s: Seq<u8>)
    requires
        s.len() >= 14,
        key_end_of(s) + 4 > s.len(),
    ensures
        parse_spec(s) is None,
{
}

/// A metadata-segment length field that makes the segment (or the fields
/// after it) overrun the available input is rejected.
pub proof fn lemma_meta_overrun_rejected(s: Seq<u8>)
    requires
        s.len() >= 14,
        meta_end_of(s) + 13 > s.len(),
    ensures
        parse_spec(s) is None,
{
}

/// Image fields that overrun the input, or a declared image size larger than
/// its declared space, are rejected.
pub proof fn lemma_image_overrun_rejected(s: Seq<u8>)
    requires
        s.len() >= 14,
        img_size_of(s) > img_space_of(s) || img_start_of(s) + img_space_of(s) > s.len(),
    ensures
        parse_spec(s) is None,
{
}

} // verus!
