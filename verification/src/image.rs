use vstd::prelude::*;
use vstd::string::StringExecFns;

verus! {

/// A view of an optional string.
pub open spec fn opt_string(o: Option<String>) -> Option<Seq<char>> {
    match o {
        Some(s) => Some(s@),
        None => None,
    }
}

/// The MIME type an image's leading bytes classify as: PNG, JPEG, or GIF
/// (any fourth byte); anything else, or fewer than four bytes, is unknown.
pub open spec fn image_type_spec(data: Seq<u8>) -> Option<Seq<char>> {
    if data.len() < 4 {
        None
    } else if data[0] == 0x89 && data[1] == 0x50 && data[2] == 0x4e && data[3] == 0x47 {
        Some("image/png"@)
    } else if data[0] == 0xff && data[1] == 0xd8 && data[2] == 0xff && data[3] == 0xe0 {
        Some("image/jpeg"@)
    } else if data[0] == 0x47 && data[1] == 0x49 && data[2] == 0x46 {
        Some("image/gif"@)
    } else {
        None
    }
}

/// Classify the cover image's MIME type from its leading bytes. An unknown
/// type is not an error: the caller simply skips cover embedding.
pub fn image_type(data: &Vec<u8>) -> (r: Option<String>)
    ensures
        opt_string(r) == image_type_spec(data@),
{
    if data.len() < 4 {
        return None;
    }
    if data[0] == 0x89 && data[1] == 0x50 && data[2] == 0x4e && data[3] == 0x47 {
        Some(String::from_str("image/png"))
    } else if data[0] == 0xff && data[1] == 0xd8 && data[2] == 0xff && data[3] == 0xe0 {
        Some(String::from_str("image/jpeg"))
    } else if data[0] == 0x47 && data[1] == 0x49 && data[2] == 0x46 {
        Some(String::from_str("image/gif"))
    } else {
        None
    }
}

} // verus!
