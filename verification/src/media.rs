//! Content types of bundled files, inferred from the file extension.

use crate::text::chars_of;
use vstd::prelude::*;

verus! {

/// Where the file name of `path` ends, looking at its first `end`
/// characters: trailing separators, and trailing segments that name the
/// directory itself, do not count.
pub open spec fn name_end(path: Seq<char>, end: int) -> int
    decreases end,
{
    if end <= 0 {
        0
    } else if path[end - 1] == '/' {
        name_end(path, end - 1)
    } else if path[end - 1] == '.' && (end == 1 || path[end - 2] == '/') {
        name_end(path, end - 1)
    } else {
        end
    }
}

/// Scanning the file name backwards from position `end`: the place of its
/// last dot, or -1 where a `/` or the start of the path comes first.
pub open spec fn last_dot(path: Seq<char>, end: int) -> int
    decreases end,
{
    if end <= 0 {
        -1
    } else if path[end - 1] == '.' {
        end - 1
    } else if path[end - 1] == '/' {
        -1
    } else {
        last_dot(path, end - 1)
    }
}

/// The extension of the file that `path` names: what follows the last dot
/// of the file name, which is the last segment of the path that is neither
/// empty nor `.`. It is empty where the name has no dot, or only a leading
/// one.
pub open spec fn extension(path: Seq<char>) -> Seq<char> {
    let end = name_end(path, path.len() as int);
    let dot = last_dot(path, end);
    if dot <= 0 || path[dot - 1] == '/' {
        Seq::empty()
    } else {
        path.subrange(dot + 1, end)
    }
}

/// Computes `extension`.
pub fn extension_of(path: &str) -> (ext: &str)
    ensures
        ext@ == extension(path@),
{
    let p = chars_of(path);
    let n: usize = p.len();
    let mut end: usize = n;
    while end > 0 && (p[end - 1] == '/' || (p[end - 1] == '.' && (end == 1 || p[end - 2] == '/')))
        invariant
            end <= n == p@.len(),
            name_end(p@, n as int) == name_end(p@, end as int),
        decreases end,
    {
        end -= 1;
    }
    let mut dot: usize = end;
    while dot > 0 && p[dot - 1] != '.' && p[dot - 1] != '/'
        invariant
            dot <= end <= n == p@.len(),
            last_dot(p@, end as int) == last_dot(p@, dot as int),
        decreases dot,
    {
        dot -= 1;
    }
    if dot <= 1 || p[dot - 1] == '/' || p[dot - 2] == '/' {
        let ext = path.substring_char(0, 0);
        assert(ext@ =~= extension(path@));
        ext
    } else {
        path.substring_char(dot, end)
    }
}

/// The media type that the extension table gives for `ext`.
pub uninterp spec fn media_type_of_extension(ext: Seq<char>) -> Seq<char>;

/// Calls `mime_guess::from_ext` and takes `first_or_octet_stream` of the
/// guess. The result is a function of the extension alone: the first entry
/// of a table compiled into that crate, found without regard to letter
/// case. For the empty extension the guess is empty and the result is the
/// generic binary type.
#[verifier::external_body]
fn guess_media_type(ext: &str) -> (media_type: String)
    ensures
        media_type@ == media_type_of_extension(ext@),
        ext@.len() == 0 ==> media_type@ == "application/octet-stream"@,
{
    mime_guess::from_ext(ext).first_or_octet_stream().as_ref().to_string()
}

/// The content type served for the file at `path`: what the extension
/// table gives for its extension, and the generic binary type where it has
/// none.
pub open spec fn content_type(path: Seq<char>) -> Seq<char> {
    if extension(path).len() == 0 {
        "application/octet-stream"@
    } else {
        media_type_of_extension(extension(path))
    }
}

/// The content type for the file at `path`, inferred from its extension;
/// the generic binary type where it has none.
pub fn content_type_of(path: &str) -> (media_type: String)
    ensures
        media_type@ == content_type(path@),
{
    guess_media_type(extension_of(path))
}

} // verus!
