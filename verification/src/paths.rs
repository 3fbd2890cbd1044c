use vstd::prelude::*;
use crate::hex::{hex_digit, hex_digit_of};
use crate::text::{chars_of, string_from_chars};

verus! {

/// The final component of a path, as `Path::file_name` gives it.
pub uninterp spec fn file_name_of(path: Seq<char>) -> Option<Seq<char>>;

/// Calls `std::path::Path::file_name` on the path.
/// Claimed: the result, named by `file_name_of`; it depends on the text of
/// the path alone, and a file name is a whole component, never empty.
#[verifier::external_body]
pub(crate) fn path_file_name(path: &str) -> (r: Option<String>)
    ensures
        match r {
            Some(n) => file_name_of(path@) == Some(n@) && n@.len() > 0,
            None => file_name_of(path@) is None,
        },
{
    match std::path::Path::new(path).file_name() {
        Some(n) => Some(n.to_string_lossy().into_owned()),
        None => None,
    }
}

/// The path without its final component, as `Path::parent` gives it.
pub uninterp spec fn parent_of(path: Seq<char>) -> Option<Seq<char>>;

/// Calls `std::path::Path::parent` on the path.
/// Claimed: the result, named by `parent_of`.
#[verifier::external_body]
pub(crate) fn path_parent(path: &str) -> (r: Option<String>)
    ensures
        match r {
            Some(n) => parent_of(path@) == Some(n@),
            None => parent_of(path@) is None,
        },
{
    match std::path::Path::new(path).parent() {
        Some(p) => Some(p.to_string_lossy().into_owned()),
        None => None,
    }
}

/// Whether `base` is a prefix of `path` by whole components, as
/// `Path::starts_with` decides it.
pub uninterp spec fn path_starts_with_spec(path: Seq<char>, base: Seq<char>) -> bool;

/// Calls `std::path::Path::starts_with`.
/// Claimed: the result, named by `path_starts_with_spec`.
#[verifier::external_body]
pub(crate) fn path_starts_with(path: &str, base: &str) -> (r: bool)
    ensures
        r == path_starts_with_spec(path@, base@),
{
    std::path::Path::new(path).starts_with(base)
}

/// How `{:?}` prints a path.
pub uninterp spec fn path_debug_text(path: Seq<char>) -> Seq<char>;

/// Calls `format!("{:?}", Path::new(path))`.
/// Claimed: the result, named by `path_debug_text` (std prints it quoted and
/// escaped).
#[verifier::external_body]
pub(crate) fn path_debug(path: &str) -> (r: String)
    ensures
        r@ == path_debug_text(path@),
{
    format!("{:?}", std::path::Path::new(path))
}

/// The text of `base` joined with `p`, as `Path::join` does it on Unix: an
/// absolute `p` replaces `base`; otherwise a separator is put between them
/// unless `base` is empty or already ends with one.
pub open spec fn join_path(base: Seq<char>, p: Seq<char>) -> Seq<char> {
    if p.len() > 0 && p[0] == '/' {
        p
    } else if base.len() > 0 && base.last() != '/' {
        base + seq!['/'] + p
    } else {
        base + p
    }
}

/// `base` joined with `p`.
pub fn join(base: &str, p: &str) -> (r: String)
    ensures
        r@ == join_path(base@, p@),
{
    let b = chars_of(base);
    let q = chars_of(p);
    if q.len() > 0 && q[0] == '/' {
        return string_from_chars(q.as_slice());
    }
    let mut out = b.clone();
    if b.len() > 0 && b[b.len() - 1] != '/' {
        out.push('/');
    }
    let mut i: usize = 0;
    let ghost start = out@;
    while i < q.len()
        invariant
            i <= q.len(),
            q@ == p@,
            out@ == start + q@.take(i as int),
        decreases q.len() - i,
    {
        out.push(q[i]);
        i = i + 1;
        assert(out@ =~= start + q@.take(i as int));
    }
    assert(q@.take(i as int) =~= q@);
    assert(b@ == base@);
    proof {
        if b@.len() > 0 && b@.last() != '/' {
            assert(start =~= base@ + seq!['/']);
        } else {
            assert(start =~= base@);
        }
    }
    string_from_chars(out.as_slice())
}

/// The bytes that a URL path keeps as they are: letters, digits, `-`, `.`,
/// `_`, `~` and the separator `/`.
pub open spec fn url_keeps(b: u8) -> bool {
    (65 <= b && b <= 90) || (97 <= b && b <= 122) || (48 <= b && b <= 57) || b == 45 || b == 46
        || b == 95 || b == 126 || b == 47
}

/// A byte of a path in a URL: as is, or percent-encoded.
pub open spec fn url_byte(b: u8) -> Seq<char> {
    if url_keeps(b) {
        seq![b as char]
    } else {
        seq!['%', hex_digit(b >> 4), hex_digit(b & 15)]
    }
}

/// The URL form of the UTF-8 bytes of a path.
pub open spec fn url_encoded(bs: Seq<u8>) -> Seq<char>
    decreases bs.len(),
{
    if bs.len() == 0 {
        Seq::empty()
    } else {
        url_encoded(bs.drop_last()) + url_byte(bs.last())
    }
}

/// The URL form of a path: every byte of its UTF-8 text that is not a
/// letter, digit, `-`, `.`, `_`, `~` or `/` is percent-encoded.
pub fn url_encode_path(path: &str) -> (r: String)
    ensures
        r@ == url_encoded(vstd::utf8::encode_utf8(path@)),
{
    let bytes = path.as_bytes();
    let mut out: Vec<char> = Vec::new();
    let mut i: usize = 0;
    assert(bytes@.take(0) =~= Seq::<u8>::empty());
    while i < bytes.len()
        invariant
            i <= bytes@.len(),
            bytes@ == vstd::utf8::encode_utf8(path@),
            out@ == url_encoded(bytes@.take(i as int)),
        decreases bytes.len() - i,
    {
        let b = bytes[i];
        let ghost before = out@;
        if (65 <= b && b <= 90) || (97 <= b && b <= 122) || (48 <= b && b <= 57) || b == 45 || b
            == 46 || b == 95 || b == 126 || b == 47 {
            out.push(b as char);
        } else {
            assert(b >> 4 < 16) by (bit_vector);
            assert(b & 15 < 16) by (bit_vector);
            out.push('%');
            out.push(hex_digit_of(b >> 4));
            out.push(hex_digit_of(b & 15));
        }
        proof {
            assert(bytes@.take(i + 1).drop_last() =~= bytes@.take(i as int));
            assert(bytes@.take(i + 1).last() == b);
            assert(out@ =~= before + url_byte(b));
        }
        i = i + 1;
    }
    assert(bytes@.take(i as int) =~= bytes@);
    string_from_chars(out.as_slice())
}


/// Joining keeps the joined part whole at the end; a relative part is put
/// below the base (with one `/` between), an absolute one replaces it.
pub proof fn join_puts_the_part_last(base: Seq<char>, p: Seq<char>)
    ensures
        p.is_suffix_of(join_path(base, p)),
        p.len() > 0 && p[0] == '/' ==> join_path(base, p) == p,
        !(p.len() > 0 && p[0] == '/') ==> base.is_prefix_of(join_path(base, p)),
        !(p.len() > 0 && p[0] == '/') && base.len() > 0 && base.last() != '/' ==> join_path(base, p)[base.len() as int] == '/',
{
    let j = join_path(base, p);
    assert(j.subrange(j.len() - p.len(), j.len() as int) =~= p);
    if !(p.len() > 0 && p[0] == '/') {
        assert(j.subrange(0, base.len() as int) =~= base);
    }
}

} // verus!
