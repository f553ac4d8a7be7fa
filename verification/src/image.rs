//! Turning a dropped image file into a `data:` URI.

use base64::Engine;
use vstd::prelude::*;

use crate::text::str_eq;

verus! {

/// The index just after the last occurrence of `c`, or 0 when `c` does not occur.
pub open spec fn after_last(s: Seq<char>, c: char) -> int
    decreases s.len(),
{
    if s.len() == 0 {
        0
    } else if s.last() == c {
        s.len() as int
    } else {
        after_last(s.drop_last(), c)
    }
}

/// The extension of a file name: what follows the last `.` of its last
/// path component, or empty when the component has no `.` past its first
/// character. A leading-dot name such as `.gitignore` has no extension.
pub open spec fn file_ext(name: Seq<char>) -> Seq<char> {
    let component = name.subrange(after_last(name, '/'), name.len() as int);
    let cut = after_last(component, '.');
    if cut <= 1 {
        Seq::<char>::empty()
    } else {
        component.subrange(cut, component.len() as int)
    }
}

/// The MIME type announced for a file extension; unknown ones fall back to a
/// generic byte stream.
pub open spec fn spec_mime(ext: Seq<char>) -> Seq<char> {
    if ext == "jpg"@ || ext == "jpeg"@ || ext == "jpe"@ {
        "image/jpeg"@
    } else if ext == "png"@ {
        "image/png"@
    } else if ext == "svg"@ {
        "image/svg+xml"@
    } else if ext == "gif"@ {
        "image/gif"@
    } else if ext == "bmp"@ {
        "image/bmp"@
    } else if ext == "ico"@ {
        "image/ico"@
    } else {
        "application/octet-stream"@
    }
}

/// The MIME type chosen for a file name.
pub open spec fn mime_of_name(name: Seq<char>) -> Seq<char> {
    spec_mime(file_ext(name))
}

/// What base64's no-padding standard encoding returns for a byte sequence.
/// The result depends on the bytes alone.
pub uninterp spec fn base64_chars(bytes: Seq<u8>) -> Seq<char>;

/// Relies on base64's `STANDARD_NO_PAD` engine: standard-alphabet base64
/// without padding, a function of the bytes alone. The engine's only panic is
/// an overflow computing the output size, which needs an input longer than
/// any `Vec<u8>` can be (a vector occupies at least one byte per element and
/// is bounded by `isize::MAX` bytes).
#[verifier::external_body]
fn base64_no_pad(data: &Vec<u8>) -> (r: String)
    ensures
        r@ == base64_chars(data@),
{
    base64::engine::general_purpose::STANDARD_NO_PAD.encode(data.as_slice())
}

/// The `data:` URI built for a dropped file: its MIME type from the file
/// name, then the bytes in base64.
pub open spec fn data_uri_chars(name: Seq<char>, bytes: Seq<u8>) -> Seq<char> {
    "data:"@ + mime_of_name(name) + ";base64,"@ + base64_chars(bytes)
}

/// The cut point of [`after_last`] always lies inside the sequence.
proof fn lemma_after_last_bounds(s: Seq<char>, c: char)
    ensures
        0 <= after_last(s, c) <= s.len(),
    decreases s.len(),
{
    if s.len() != 0 && s.last() != c {
        lemma_after_last_bounds(s.drop_last(), c);
    }
}

/// The index just after the last occurrence of `c` in `s`, exec form.
fn find_after_last(s: &str, c: char) -> (r: usize)
    ensures
        r == after_last(s@, c),
{
    let n: usize = s.unicode_len();
    let mut i: usize = n;
    proof {
        assert(s@.take(n as int) =~= s@);
    }
    while i > 0
        invariant
            i <= n,
            n == s@.len(),
            after_last(s@, c) == after_last(s@.take(i as int), c),
        decreases i,
    {
        if s.get_char(i - 1) == c {
            proof {
                assert(s@.take(i as int).last() == s@[i - 1]);
            }
            return i;
        }
        proof {
            assert(s@.take(i as int).drop_last() == s@.take(i - 1));
        }
        i -= 1;
    }
    0
}

/// Picks the MIME type for a file name by its extension.
pub fn name_to_mime(name: &str) -> (r: &'static str)
    ensures
        r@ == mime_of_name(name@),
{
    let n: usize = name.unicode_len();
    let start: usize = find_after_last(name, '/');
    proof {
        lemma_after_last_bounds(name@, '/');
    }
    let component = name.substring_char(start, n);
    let m: usize = component.unicode_len();
    let cut: usize = find_after_last(component, '.');
    proof {
        lemma_after_last_bounds(component@, '.');
    }
    let ext = if cut <= 1 {
        proof {
            assert(component@.subrange(0, 0) =~= Seq::<char>::empty());
        }
        component.substring_char(0, 0)
    } else {
        component.substring_char(cut, m)
    };
    proof {
        assert(ext@ == file_ext(name@));
    }
    if str_eq(ext, "jpg") || str_eq(ext, "jpeg") || str_eq(ext, "jpe") {
        "image/jpeg"
    } else if str_eq(ext, "png") {
        "image/png"
    } else if str_eq(ext, "svg") {
        "image/svg+xml"
    } else if str_eq(ext, "gif") {
        "image/gif"
    } else if str_eq(ext, "bmp") {
        "image/bmp"
    } else if str_eq(ext, "ico") {
        "image/ico"
    } else {
        "application/octet-stream"
    }
}

/// Encodes a dropped file as a `data:` URI with its MIME type and base64 payload.
pub fn image_as_uri(item: &vertigo::DropFileItem) -> (r: String)
    ensures
        r@ == data_uri_chars(item.name@, item.data@),
{
    let mime = name_to_mime(item.name.as_str());
    let mut out = "data:".to_owned();
    out.append(mime);
    out.append(";base64,");
    let encoded = base64_no_pad(&item.data);
    out.append(encoded.as_str());
    out
}

} // verus!
