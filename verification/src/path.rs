//! From the path of a request to a path on disk.
//!
//! Paths are text with `/` between their segments. A request path is cut at the first
//! `?`, percent-decoded, checked to be UTF-8 and to start with `/`, and what follows the
//! leading `/` is appended to the root directory. Nothing is normalised on the way; a
//! caller that must not leave the root directory asks `has_parent_segment` first.
//!
//! The extension of a path is that of the name it ends in, as the file system reads
//! the path: separators and segments `.` at its end do not count.

use vstd::prelude::*;
use vstd::string::*;
use vstd::utf8::*;
use crate::error::{Error, ErrorView};
use crate::text::{
    chars_of, find_first, find_last, first_index, last_index, lemma_first_index,
    lemma_first_index_is, lemma_last_index, slice_of,
};

verus! {

/// The value of an ASCII hexadecimal digit, of either case.
pub open spec fn hex_value(b: u8) -> Option<int> {
    if 0x30 <= b <= 0x39 {
        Some(b - 0x30)
    } else if 0x41 <= b <= 0x46 {
        Some(b - 0x41 + 10)
    } else if 0x61 <= b <= 0x66 {
        Some(b - 0x61 + 10)
    } else {
        None
    }
}

/// Percent-decoding of bytes: a `%` followed by two hexadecimal digits becomes the byte
/// that the digits spell; every other byte, a `%` without two such digits too, stays.
pub open spec fn percent_decoded(bytes: Seq<u8>) -> Seq<u8>
    decreases bytes.len(),
{
    if bytes.len() == 0 {
        Seq::empty()
    } else if bytes[0] == 0x25 && bytes.len() >= 3 && hex_value(bytes[1]) is Some && hex_value(
        bytes[2],
    ) is Some {
        seq![(hex_value(bytes[1])->0 * 16 + hex_value(bytes[2])->0) as u8] + percent_decoded(
            bytes.skip(3),
        )
    } else {
        seq![bytes[0]] + percent_decoded(bytes.skip(1))
    }
}

/// The request path without its query: what stands before the first `?`.
pub open spec fn strip_query(raw: Seq<char>) -> Seq<char> {
    raw.take(first_index(raw, '?'))
}

/// The request path without its query, percent-decoded and read as UTF-8; `None` when
/// the decoded bytes are not UTF-8.
pub open spec fn decoded_path(raw: Seq<char>) -> Option<Seq<char>> {
    let bytes = percent_decoded(encode_utf8(strip_query(raw)));
    if valid_utf8(bytes) {
        Some(decode_utf8(bytes))
    } else {
        None
    }
}

/// The decoded request path without its leading `/`.
pub open spec fn relative_path(raw: Seq<char>) -> Result<Seq<char>, ErrorView> {
    match decoded_path(raw) {
        None => Err(ErrorView::UriNotUtf8),
        Some(p) => if p.len() > 0 && p[0] == '/' {
            Ok(p.skip(1))
        } else {
            Err(ErrorView::UriNotAbsolute)
        },
    }
}

/// `rel` appended to `base`, with one `/` between them unless `base` is empty or ends in one.
pub open spec fn joined(base: Seq<char>, rel: Seq<char>) -> Seq<char> {
    if base.len() == 0 || base.last() == '/' {
        base + rel
    } else {
        base + seq!['/'] + rel
    }
}

/// The path on disk that a request path stands for under `root`.
pub open spec fn local_path(raw: Seq<char>, root: Seq<char>) -> Result<Seq<char>, ErrorView> {
    match relative_path(raw) {
        Ok(rel) => Ok(joined(root, rel)),
        Err(e) => Err(e),
    }
}

/// The path to serve: the local path, or the `index.html` in it when it is a directory.
pub open spec fn local_path_or_index(raw: Seq<char>, root: Seq<char>, is_dir: bool) -> Result<
    Seq<char>,
    ErrorView,
> {
    match local_path(raw, root) {
        Ok(p) => if is_dir {
            Ok(joined(p, "index.html"@))
        } else {
            Ok(p)
        },
        Err(e) => Err(e),
    }
}

/// A segment `..` starts at position `i` of `p`.
pub open spec fn parent_segment_at(p: Seq<char>, i: int) -> bool {
    &&& 0 <= i
    &&& i + 2 <= p.len()
    &&& p[i] == '.'
    &&& p[i + 1] == '.'
    &&& (i == 0 || p[i - 1] == '/')
    &&& (i + 2 == p.len() || p[i + 2] == '/')
}

/// One of the segments of `p` is `..`.
pub open spec fn has_parent_segment(p: Seq<char>) -> bool {
    exists|i: int| parent_segment_at(p, i)
}

/// The length of a path without what does not count at its end: separators, and
/// segments `.`.
pub open spec fn trimmed_len(p: Seq<char>) -> int
    decreases p.len(),
{
    if p.len() > 0 && p.last() == '/' {
        trimmed_len(p.drop_last())
    } else if p.len() >= 2 && p.last() == '.' && p[p.len() - 2] == '/' {
        trimmed_len(p.take(p.len() - 2))
    } else {
        p.len() as int
    }
}

/// The name that a path ends in: its last segment, where separators and segments `.` at
/// the end of the path do not count. The name of `/srv/a.css/` is `a.css`.
pub open spec fn file_name(p: Seq<char>) -> Seq<char> {
    let t = p.take(trimmed_len(p));
    t.skip(last_index(t, '/') + 1)
}

/// The extension of a path: what follows the last `.` of its name. A name without a
/// `.`, one whose only `.` is its first character, and the name `..` have none.
pub open spec fn extension(p: Seq<char>) -> Option<Seq<char>> {
    let name = file_name(p);
    let dot = last_index(name, '.');
    if dot <= 0 || name == seq!['.', '.'] {
        None
    } else {
        Some(name.skip(dot + 1))
    }
}

/// `ext` is `html` in any mix of upper and lower case.
pub open spec fn is_html_extension(ext: Seq<char>) -> bool {
    &&& ext.len() == 4
    &&& (ext[0] == 'h' || ext[0] == 'H')
    &&& (ext[1] == 't' || ext[1] == 'T')
    &&& (ext[2] == 'm' || ext[2] == 'M')
    &&& (ext[3] == 'l' || ext[3] == 'L')
}

/// The path names an HTML file, going by its extension.
pub open spec fn is_html_path(p: Seq<char>) -> bool {
    match extension(p) {
        Some(ext) => is_html_extension(ext),
        None => false,
    }
}

/// Calls `percent_encoding::percent_decode_str` and then `PercentDecode::decode_utf8` on
/// what it returns. The decoder walks the bytes of `input` and yields, for a `%` followed
/// by two hexadecimal digits, the byte they spell, and every other byte as it is;
/// `decode_utf8` hands the yielded bytes back as text exactly when they are UTF-8.
#[verifier::external_body]
fn percent_decode_utf8(input: &str) -> (r: Option<String>)
    ensures
        r is Some <==> valid_utf8(percent_decoded(input.spec_bytes())),
        r matches Some(s) ==> s@ == decode_utf8(percent_decoded(input.spec_bytes())),
{
    match percent_encoding::percent_decode_str(input).decode_utf8() {
        Ok(text) => Some(text.into_owned()),
        Err(_) => None,
    }
}

/// Decodes a request path and takes off its leading `/`.
///
/// The query, if the path still carries one, is cut off first. Fails with `UriNotUtf8`
/// when the decoded bytes are not UTF-8, and with `UriNotAbsolute` when the decoded path
/// does not start with `/`.
pub fn decoded_request_path(path: &str) -> (r: Result<String, Error>)
    ensures
        match r {
            Ok(rel) => relative_path(path@) == Ok::<Seq<char>, ErrorView>(rel@),
            Err(e) => relative_path(path@) == Err::<Seq<char>, ErrorView>(e@),
        },
{
    let chars = chars_of(path);
    let end = find_first(&chars, '?');
    proof {
        lemma_first_index(path@, '?');
    }
    let stripped = slice_of(path, 0, end);
    match percent_decode_utf8(stripped.as_str()) {
        None => Err(Error::UriNotUtf8),
        Some(decoded) => {
            let d = chars_of(decoded.as_str());
            if d.len() > 0 && d[0] == '/' {
                Ok(slice_of(decoded.as_str(), 1, d.len()))
            } else {
                Err(Error::UriNotAbsolute)
            }
        },
    }
}

/// Appends `rel` to `base`, with one `/` between them unless `base` is empty or ends in one.
pub fn join(base: &str, rel: &str) -> (r: String)
    ensures
        r@ == joined(base@, rel@),
{
    let chars = chars_of(base);
    let mut r = String::from_str(base);
    if chars.len() > 0 && chars[chars.len() - 1] != '/' {
        proof {
            reveal_strlit("/");
        }
        r.append("/");
    }
    r.append(rel);
    r
}

/// `r` is what resolving the request path `raw` under `root` gives.
pub open spec fn is_resolution_of(
    r: Result<Seq<char>, ErrorView>,
    raw: Seq<char>,
    root: Seq<char>,
) -> bool {
    r == local_path(raw, root)
}

/// Maps the path of a request to a path under `root_dir`.
///
/// Fails as `decoded_request_path` does. Nothing is normalised: a segment `..` in the
/// request is a segment `..` in the result.
pub fn local_path_for_request(path: &str, root_dir: &str) -> (r: Result<String, Error>)
    ensures
        is_resolution_of(
            match r {
                Ok(p) => Ok(p@),
                Err(e) => Err(e@),
            },
            path@,
            root_dir@,
        ),
{
    match decoded_request_path(path) {
        Ok(rel) => Ok(join(root_dir, rel.as_str())),
        Err(e) => Err(e),
    }
}

/// Maps the path of a request to the path of the file to serve: the local path, or the
/// `index.html` in it when the local path is a directory. `is_dir` says whether it is.
pub fn local_path_with_maybe_index(path: &str, root_dir: &str, is_dir: bool) -> (r: Result<
    String,
    Error,
>)
    ensures
        match r {
            Ok(p) => local_path_or_index(path@, root_dir@, is_dir) == Ok::<Seq<char>, ErrorView>(
                p@,
            ),
            Err(e) => local_path_or_index(path@, root_dir@, is_dir) == Err::<
                Seq<char>,
                ErrorView,
            >(e@),
        },
{
    match local_path_for_request(path, root_dir) {
        Ok(p) => if is_dir {
            Ok(join(p.as_str(), "index.html"))
        } else {
            Ok(p)
        },
        Err(e) => Err(e),
    }
}

/// Whether one of the segments of `path` is `..`.
pub fn contains_parent_segment(path: &str) -> (r: bool)
    ensures
        r == has_parent_segment(path@),
{
    let chars = chars_of(path);
    let n = chars.len();
    let mut i: usize = 0;
    while i < n
        invariant
            n == chars.len(),
            chars@ == path@,
            i <= n,
            forall|j: int| 0 <= j < i ==> !parent_segment_at(path@, j),
        decreases n - i,
    {
        if n - i >= 2 && chars[i] == '.' && chars[i + 1] == '.' && (i == 0 || chars[i - 1] == '/')
            && (i + 2 == n || chars[i + 2] == '/') {
            assert(parent_segment_at(path@, i as int));
            return true;
        }
        i += 1;
    }
    false
}

/// The length of `chars` without the separators and the segments `.` at its end.
fn trimmed_len_of(chars: &Vec<char>) -> (n: usize)
    ensures
        n == trimmed_len(chars@),
        n <= chars.len(),
{
    let mut n: usize = chars.len();
    assert(chars@.take(n as int) =~= chars@);
    while n > 0 && (chars[n - 1] == '/' || (n >= 2 && chars[n - 1] == '.' && chars[n - 2] == '/'))
        invariant
            n <= chars.len(),
            trimmed_len(chars@.take(n as int)) == trimmed_len(chars@),
        decreases n,
    {
        let ghost t = chars@.take(n as int);
        if chars[n - 1] == '/' {
            assert(t.drop_last() =~= chars@.take(n - 1));
            n -= 1;
        } else {
            assert(t.take(t.len() - 2) =~= chars@.take(n - 2));
            n -= 2;
        }
    }
    n
}

/// The extension of `path`, if it has one.
pub fn extension_of(path: &str) -> (r: Option<String>)
    ensures
        match r {
            Some(ext) => extension(path@) == Some(ext@),
            None => extension(path@) is None,
        },
{
    let chars = chars_of(path);
    let trimmed = slice_of(path, 0, trimmed_len_of(&chars));
    let trimmed_chars = chars_of(trimmed.as_str());
    proof {
        lemma_last_index(trimmed@, '/');
    }
    let start = match find_last(&trimmed_chars, '/') {
        Some(i) => i + 1,
        None => 0,
    };
    let name = slice_of(trimmed.as_str(), start, trimmed_chars.len());
    let name_chars = chars_of(name.as_str());
    proof {
        lemma_last_index(name@, '.');
    }
    if name_chars.len() == 2 && name_chars[0] == '.' && name_chars[1] == '.' {
        assert(name@ =~= seq!['.', '.']);
        return None;
    }
    match find_last(&name_chars, '.') {
        Some(dot) => if dot == 0 {
            None
        } else {
            let ext = slice_of(name.as_str(), dot + 1, name_chars.len());
            Some(ext)
        },
        None => None,
    }
}

/// Whether `path` names an HTML file, going by its extension in any case.
pub fn has_html_extension(path: &str) -> (r: bool)
    ensures
        r == is_html_path(path@),
{
    match extension_of(path) {
        Some(ext) => {
            let e = chars_of(ext.as_str());
            e.len() == 4 && (e[0] == 'h' || e[0] == 'H') && (e[1] == 't' || e[1] == 'T') && (e[2]
                == 'm' || e[2] == 'M') && (e[3] == 'l' || e[3] == 'L')
        },
        None => false,
    }
}

/// Every local path starts with the root directory it was resolved under.
pub proof fn lemma_local_path_under_root(raw: Seq<char>, root: Seq<char>, is_dir: bool)
    ensures
        local_path(raw, root) matches Ok(p) ==> root.is_prefix_of(p),
        local_path_or_index(raw, root, is_dir) matches Ok(p) ==> root.is_prefix_of(p),
{
}

/// Bytes without a `%` among them are their own percent-decoding.
pub proof fn lemma_nothing_to_decode(bytes: Seq<u8>)
    requires
        forall|i: int| 0 <= i < bytes.len() ==> bytes[i] != 0x25,
    ensures
        percent_decoded(bytes) == bytes,
    decreases bytes.len(),
{
    if bytes.len() > 0 {
        lemma_nothing_to_decode(bytes.skip(1));
    }
}

/// The UTF-8 encoding of a scalar value other than that of `%` holds no byte `%`.
proof fn lemma_scalar_without_percent(v: u32)
    requires
        v != 0x25,
    ensures
        forall|i: int| 0 <= i < encode_scalar(v).len() ==> encode_scalar(v)[i] != 0x25,
{
    assert(v <= 0x7F ==> (v & 0x7F) as u8 != 0x25) by (bit_vector)
        requires
            v != 0x25,
    ;
    assert(forall|x: u8| #![auto] (0x80u8 | x) != 0x25 && (0xC0u8 | x) != 0x25 && (0xE0u8 | x)
        != 0x25 && (0xF0u8 | x) != 0x25) by (bit_vector);
}

/// The UTF-8 encoding of text without a `%` holds no byte `%`.
pub proof fn lemma_encoding_without_percent(chars: Seq<char>)
    requires
        !chars.contains('%'),
    ensures
        forall|i: int| 0 <= i < encode_utf8(chars).len() ==> encode_utf8(chars)[i] != 0x25,
    decreases chars.len(),
{
    if chars.len() > 0 {
        let rest = chars.drop_first();
        if chars[0] as u32 == 0x25 {
            char_u32_cast(chars[0], 0x25u32);
            char_u32_cast('%', 0x25u32);
        }
        lemma_scalar_without_percent(chars[0] as u32);
        lemma_encoding_without_percent(rest);
        assert(encode_utf8(chars) == encode_scalar(chars[0] as u32) + encode_utf8(rest));
    }
}

/// A request path without a `%` stands for itself: it never fails to decode, and it
/// leads to the root directory followed by the path up to its query.
pub proof fn lemma_plain_path_stands_for_itself(raw: Seq<char>, root: Seq<char>)
    requires
        !raw.contains('%'),
    ensures
        decoded_path(raw) == Some(strip_query(raw)),
        raw.len() > 0 && raw[0] == '/' ==> local_path(raw, root) == Ok::<Seq<char>, ErrorView>(
            joined(root, strip_query(raw).skip(1)),
        ),
        !(raw.len() > 0 && raw[0] == '/') ==> local_path(raw, root) == Err::<
            Seq<char>,
            ErrorView,
        >(ErrorView::UriNotAbsolute),
{
    lemma_first_index(raw, '?');
    let s = strip_query(raw);
    lemma_encoding_without_percent(s);
    lemma_nothing_to_decode(encode_utf8(s));
    encode_utf8_valid_utf8(s);
    encode_utf8_decode_utf8(s);
}

/// Resolving the same request path under the same root directory twice gives the same
/// path, or the same error.
pub proof fn lemma_resolution_is_repeatable(
    first: Result<Seq<char>, ErrorView>,
    second: Result<Seq<char>, ErrorView>,
    raw: Seq<char>,
    root: Seq<char>,
)
    requires
        is_resolution_of(first, raw, root),
        is_resolution_of(second, raw, root),
    ensures
        first == second,
{
}

/// The query of a request path has no part in where the path leads.
pub proof fn lemma_query_is_ignored(raw: Seq<char>, root: Seq<char>)
    ensures
        local_path(raw, root) == local_path(strip_query(raw), root),
{
    lemma_first_index(raw, '?');
    let s = strip_query(raw);
    lemma_first_index_is(s, '?', s.len() as int);
    assert(strip_query(s) =~= s);
}

} // verus!
