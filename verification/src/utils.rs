//! Validation helpers for image uploads: the content-type allow-list,
//! filename extension extraction and filename validation.

use vstd::prelude::*;
use vstd::string::*;

use crate::text::{contains_char, find_last, last_index_of, str_eq};

verus! {

/// The fixed allow-list of image MIME types, as character sequences.
pub open spec fn allowed_image_types() -> Seq<Seq<char>> {
    seq![
        "image/jpeg"@,
        "image/png"@,
        "image/gif"@,
        "image/webp"@,
        "image/svg+xml"@,
        "image/x-icon"@,
        "image/bmp"@,
    ]
}

/// Whether a content type belongs to the image allow-list.
pub open spec fn is_allowed_image_type(s: Seq<char>) -> bool {
    allowed_image_types().contains(s)
}

/// Accepts exactly the MIME types on the image allow-list.
pub fn is_valid_image_type(content_type: &str) -> (r: bool)
    ensures
        r == is_allowed_image_type(content_type@),
{
    let r = str_eq(content_type, "image/jpeg") || str_eq(content_type, "image/png") || str_eq(
        content_type,
        "image/gif",
    ) || str_eq(content_type, "image/webp") || str_eq(content_type, "image/svg+xml") || str_eq(
        content_type,
        "image/x-icon",
    ) || str_eq(content_type, "image/bmp");
    proof {
        if r {
            assert(is_allowed_image_type(content_type@));
        } else {
            assert(forall|i: int|
                0 <= i < allowed_image_types().len() ==> allowed_image_types()[i]
                    != content_type@);
        }
    }
    r
}

/// The substring after the last '.', or the whole name when it has no '.'.
pub open spec fn spec_file_extension(s: Seq<char>) -> Seq<char> {
    if last_index_of(s, '.') >= 0 {
        s.subrange(last_index_of(s, '.') + 1, s.len() as int)
    } else {
        s
    }
}

/// Yields the text after the final '.' of the filename; a name without a
/// '.' is handed back whole, so the result is always present.
pub fn get_file_extension(filename: &str) -> (r: Option<&str>)
    ensures
        r matches Some(ext) && ext@ == spec_file_extension(filename@),
{
    match find_last(filename, '.') {
        Some(i) => {
            let len = filename.unicode_len();
            Some(filename.substring_char(i + 1, len))
        },
        None => Some(filename),
    }
}

/// A filename is accepted when it is nonempty, at most 255 bytes long and
/// free of NUL characters.
pub open spec fn spec_valid_filename(s: &str) -> bool {
    &&& s@.len() != 0
    &&& s.spec_bytes().len() <= 255
    &&& !s@.contains('\0')
}

/// Accepts exactly the filenames that `spec_valid_filename` allows.
pub fn validate_filename(filename: &str) -> (r: bool)
    ensures
        r == spec_valid_filename(filename),
{
    let bytes = filename.as_bytes();
    !filename.is_empty() && bytes.len() <= 255 && !contains_char(filename, '\0')
}

} // verus!
