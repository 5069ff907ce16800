use vstd::prelude::*;

use crate::container::le32_spec;
use crate::container::read_le32;

verus! {

// The FLAC metadata reader of the tag-rewriting stage indexes block bodies
// with declared lengths unchecked, so the library admits only inputs whose
// leading block framing it has validated: every declared length fits the
// remaining input, a STREAMINFO body has at least its fixed 34 bytes, an
// APPLICATION body at least its 4-byte id, vorbis-comment and picture bodies
// carry only in-bounds inner lengths and every comment a `=` separator, and
// cue-sheet blocks (whose track walk is content-driven) are not admitted at
// all. Anything else degrades to the unreadable-tag warning.

/// The big-endian 24-bit block length stored at `off`.
pub open spec fn be24_spec(s: Seq<u8>, off: int) -> int
    recommends
        0 <= off,
        off + 3 <= s.len(),
{
    s[off] * 0x10000 + s[off + 1] * 0x100 + s[off + 2]
}

/// The big-endian 32-bit value stored at `off`.
pub open spec fn be32_spec(s: Seq<u8>, off: int) -> int
    recommends
        0 <= off,
        off + 4 <= s.len(),
{
    s[off] * 0x1000000 + s[off + 1] * 0x10000 + s[off + 2] * 0x100 + s[off + 3]
}

/// `count` vorbis comments starting at `i`: each carries its little-endian
/// length in bounds and holds a `=` separator byte.
pub open spec fn vorbis_comments_wf(s: Seq<u8>, i: int, end: int, count: int) -> bool
    decreases count,
{
    if count <= 0 {
        true
    } else {
        &&& i + 4 <= end
        &&& ({
            let cl = le32_spec(s, i);
            &&& i + 4 + cl <= end
            &&& (exists|j: int| i + 4 <= j < i + 4 + cl && s[j] == 0x3du8)
            &&& vorbis_comments_wf(s, i + 4 + cl, end, count - 1)
        })
    }
}

/// A vorbis-comment block body in `[start, end)` whose declared vendor and
/// comment lengths all stay in bounds and whose comments each hold a `=`.
pub open spec fn vorbis_wf(s: Seq<u8>, start: int, end: int) -> bool {
    &&& start + 4 <= end
    &&& ({
        let vl = le32_spec(s, start);
        &&& start + 8 + vl <= end
        &&& vorbis_comments_wf(s, start + 8 + vl, end, le32_spec(s, start + 4 + vl))
    })
}

/// A picture block body in `[start, end)` whose declared MIME, description
/// and data lengths all stay in bounds.
pub open spec fn picture_wf(s: Seq<u8>, start: int, end: int) -> bool {
    &&& start + 8 <= end
    &&& ({
        let ml = be32_spec(s, start + 4);
        &&& start + 12 + ml <= end
        &&& ({
            let dl = be32_spec(s, start + 8 + ml);
            &&& start + 32 + ml + dl <= end
            &&& ({
                let pl = be32_spec(s, start + 28 + ml + dl);
                start + 32 + ml + dl + pl <= end
            })
        })
    })
}

/// One block body of the given type, in `[start, end)`.
pub open spec fn block_body_wf(s: Seq<u8>, btype: u8, start: int, end: int) -> bool {
    if btype == 0 {
        end - start >= 34
    } else if btype == 2 {
        end - start >= 4
    } else if btype == 4 {
        vorbis_wf(s, start, end)
    } else if btype == 5 {
        false
    } else if btype == 6 {
        picture_wf(s, start, end)
    } else {
        true
    }
}

/// The chain of metadata blocks starting at `pos`: each header and declared
/// body fits the input (and the region stays within a 32-bit length), each
/// body is well-formed for its type, and a block carries the last-block flag
/// before the input runs out.
pub open spec fn flac_blocks_wf(s: Seq<u8>, pos: int) -> bool
    decreases s.len() - pos,
{
    if pos < 0 || pos + 4 > s.len() {
        false
    } else {
        let header = s[pos];
        let bl = be24_spec(s, pos + 1);
        let body = pos + 4;
        if body + bl > s.len() || body + bl > 0xffffffff {
            false
        } else if !block_body_wf(s, header & 0x7f, body, body + bl) {
            false
        } else if header & 0x80 != 0 {
            true
        } else {
            flac_blocks_wf(s, body + bl)
        }
    }
}

/// A leading FLAC metadata region this library admits: the `fLaC` marker
/// followed by a well-formed block chain.
pub open spec fn flac_wf(s: Seq<u8>) -> bool {
    &&& s.len() >= 4
    &&& s[0] == 0x66u8 && s[1] == 0x4cu8 && s[2] == 0x61u8 && s[3] == 0x43u8
    &&& flac_blocks_wf(s, 4)
}

/// Read the big-endian 32-bit value at `off`.
fn read_be32(data: &Vec<u8>, off: usize) -> (r: u32)
    requires
        off + 4 <= data@.len(),
    ensures
        r == be32_spec(data@, off as int),
{
    let bound = data.len();
    proof {
        assert(off + 4 <= bound);
    }
    (data[off] as u32) * 0x1000000 + (data[off + 1] as u32) * 0x10000 + (data[off + 2] as u32)
        * 0x100 + (data[off + 3] as u32)
}

/// Whether `data[from..to]` holds a `=` byte.
fn has_eq_byte(data: &Vec<u8>, from: usize, to: usize) -> (b: bool)
    requires
        from <= to,
        to <= data@.len(),
    ensures
        b == exists|j: int| from <= j < to && data@[j] == 0x3du8,
{
    let mut j = from;
    while j < to
        invariant
            from <= j <= to,
            to <= data@.len(),
            forall|k: int| from <= k < j ==> data@[k] != 0x3du8,
        decreases to - j,
    {
        if data[j] == 0x3d {
            proof {
                assert(from <= j < to && data@[j as int] == 0x3du8);
            }
            return true;
        }
        j = j + 1;
    }
    false
}

/// Check a vorbis-comment block body against `vorbis_wf`.
fn vorbis_wf_check(data: &Vec<u8>, start: usize, end: usize) -> (b: bool)
    requires
        start <= end,
        end <= data@.len(),
    ensures
        b == vorbis_wf(data@, start as int, end as int),
{
    if end - start < 4 {
        return false;
    }
    let vl = read_le32(data, start) as usize;
    if end - start < 8 || vl > end - start - 8 {
        return false;
    }
    let count = read_le32(data, start + 4 + vl);
    let mut i = start + 8 + vl;
    let mut remaining = count;
    while remaining > 0
        invariant
            start + 8 + vl <= i <= end,
            end <= data@.len(),
            vl == le32_spec(data@, start as int),
            count == le32_spec(data@, start + 4 + vl),
            vorbis_comments_wf(data@, (start + 8 + vl) as int, end as int, count as int)
                == vorbis_comments_wf(data@, i as int, end as int, remaining as int),
        decreases remaining,
    {
        if end - i < 4 {
            proof {
                assert(!vorbis_comments_wf(data@, i as int, end as int, remaining as int));
            }
            return false;
        }
        let cl = read_le32(data, i) as usize;
        if cl > end - i - 4 {
            proof {
                assert(!vorbis_comments_wf(data@, i as int, end as int, remaining as int));
            }
            return false;
        }
        if !has_eq_byte(data, i + 4, i + 4 + cl) {
            proof {
                assert(!vorbis_comments_wf(data@, i as int, end as int, remaining as int));
            }
            return false;
        }
        i = i + 4 + cl;
        remaining = remaining - 1;
    }
    true
}

/// Check a picture block body against `picture_wf`.
fn picture_wf_check(data: &Vec<u8>, start: usize, end: usize) -> (b: bool)
    requires
        start <= end,
        end <= data@.len(),
    ensures
        b == picture_wf(data@, start as int, end as int),
{
    if end - start < 8 {
        return false;
    }
    let ml = read_be32(data, start + 4) as usize;
    if end - start < 12 || ml > end - start - 12 {
        return false;
    }
    let dl = read_be32(data, start + 8 + ml) as usize;
    if end - start - ml < 32 || dl > end - start - 32 - ml {
        return false;
    }
    let pl = read_be32(data, start + 28 + ml + dl) as usize;
    if pl > end - start - 32 - ml - dl {
        return false;
    }
    true
}

/// Check the whole leading FLAC metadata region against `flac_wf`.
pub fn flac_wf_check(data: &Vec<u8>) -> (b: bool)
    ensures
        b == flac_wf(data@),
{
    let n = data.len();
    if n < 4 {
        return false;
    }
    if !(data[0] == 0x66 && data[1] == 0x4c && data[2] == 0x61 && data[3] == 0x43) {
        return false;
    }
    let mut pos: usize = 4;
    loop
        invariant
            4 <= pos <= n,
            n == data@.len(),
            flac_wf(data@) == flac_blocks_wf(data@, pos as int),
        decreases n - pos,
    {
        if n - pos < 4 {
            return false;
        }
        let header = data[pos];
        let bl = ((data[pos + 1] as u32) * 0x10000 + (data[pos + 2] as u32) * 0x100 + (data[pos
            + 3] as u32)) as usize;
        proof {
            assert(bl == be24_spec(data@, pos + 1));
        }
        let body = pos + 4;
        if bl > n - body {
            return false;
        }
        let end = body + bl;
        if end > 0xffffffff {
            return false;
        }
        let btype = header & 0x7f;
        let body_ok = if btype == 0 {
            bl >= 34
        } else if btype == 2 {
            bl >= 4
        } else if btype == 4 {
            vorbis_wf_check(data, body, end)
        } else if btype == 5 {
            false
        } else if btype == 6 {
            picture_wf_check(data, body, end)
        } else {
            true
        };
        if !body_ok {
            return false;
        }
        if header & 0x80 != 0 {
            return true;
        }
        pos = end;
    }
}

} // verus!
