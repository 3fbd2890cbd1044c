use vstd::prelude::*;
use crate::text::{
    char_views, chars_of, find_char, find_char_index, lemma_find_char_bounds, split, split_chars,
    string_from_chars, sub_chars, trim, trim_chars,
};

verus! {

/// The text that opens an HTML comment.
pub open spec fn comment_open() -> Seq<char> {
    seq!['<', '!', '-', '-']
}

/// The text that closes an HTML comment.
pub open spec fn comment_close() -> Seq<char> {
    seq!['-', '-', '>']
}

/// `pat` occurs in `h` at index `i`.
pub open spec fn occurs_at(h: Seq<char>, pat: Seq<char>, i: int) -> bool {
    0 <= i && i + pat.len() <= h.len() && h.subrange(i, i + pat.len()) == pat
}

/// `i` is the first index at or after `from` at which `pat` occurs in `h`.
pub open spec fn first_occurrence_from(h: Seq<char>, pat: Seq<char>, from: int, i: int) -> bool {
    &&& from <= i
    &&& occurs_at(h, pat, i)
    &&& forall|k: int| from <= k < i ==> !occurs_at(h, pat, k)
}

/// Where the leftmost HTML comment of `h` lies: from the first `<!--` to the
/// end of the first `-->` that starts after it. This is the match of the
/// pattern `<!--((.|\n)*?)-->` under leftmost-first search: the pattern
/// matches any text between the two markers, lazily.
pub open spec fn comment_span(h: Seq<char>) -> Option<(int, int)> {
    if exists|p: int, q: int| #[trigger] comment_at(h, p, q) {
        let (p, q) = choose|p: int, q: int| #[trigger] comment_at(h, p, q);
        Some((p, q + 3))
    } else {
        None
    }
}

/// The first `<!--` of `h` starts at `p`, and the first `-->` after it at `q`.
pub open spec fn comment_at(h: Seq<char>, p: int, q: int) -> bool {
    first_occurrence_from(h, comment_open(), 0, p) && first_occurrence_from(
        h,
        comment_close(),
        p + 4,
        q,
    )
}

/// The pattern of a leading header comment.
pub const HEADER_COMMENT_PATTERN: &'static str = "<!--((.|\n)*?)-->";

/// Calls `regex::Regex::new(pattern)` and then `find(haystack)` on it, and
/// hands back the text before the match and the matched text.
/// Claimed, for the one pattern that `requires` admits (which compiles): the
/// match is the leftmost-first match of `<!--((.|\n)*?)-->` as `comment_span`
/// states it (the regex crate documents leftmost-first search and lazy `*?`;
/// `.` with `\n` matches every character).
#[verifier::external_body]
pub(crate) fn regex_find(pattern: &str, haystack: &str) -> (r: Option<(String, String)>)
    requires
        pattern@ == HEADER_COMMENT_PATTERN@,
    ensures
        match comment_span(haystack@) {
            Some((p, e)) => r matches Some((before, matched)) && before@ == haystack@.take(p)
                && matched@ == haystack@.subrange(p, e),
            None => r is None,
        },
{
    match regex::Regex::new(pattern) {
        Ok(re) => match re.find(haystack) {
            Some(m) => Some((haystack[..m.start()].to_string(), m.as_str().to_string())),
            None => None,
        },
        Err(_) => None,
    }
}

/// The content of the header comment of a markdown text: what lies between
/// `<!--` and `-->` of its leftmost HTML comment, provided the text begins
/// with that comment.
pub open spec fn header_content(h: Seq<char>) -> Option<Seq<char>> {
    match comment_span(h) {
        Some((p, e)) => if p == 0 {
            Some(h.subrange(4, e - 3))
        } else {
            None
        },
        None => None,
    }
}

proof fn lemma_comment_span_bounds(h: Seq<char>)
    ensures
        comment_span(h) matches Some((p, e)) ==> 0 <= p && p + 7 <= e <= h.len(),
{
}

/// The header comment of a markdown text, when the text begins with one.
pub fn extract_markdown_header_content(content: &str) -> (r: Option<String>)
    ensures
        r matches Some(s) ==> header_content(content@) == Some(s@),
        r is None ==> header_content(content@) is None,
{
    proof {
        lemma_comment_span_bounds(content@);
    }
    match regex_find(HEADER_COMMENT_PATTERN, content) {
        None => None,
        Some((before, matched)) => {
            if before.as_str().is_empty() {
                let m = chars_of(matched.as_str());
                let inner = sub_chars(m.as_slice(), 4, m.len() - 3);
                proof {
                    let (p, e) = comment_span(content@)->0;
                    assert(inner@ =~= content@.subrange(4, e - 3));
                }
                Some(string_from_chars(inner.as_slice()))
            } else {
                None
            }
        },
    }
}

/// The content of the leftmost HTML comment of a text, wherever it stands.
pub open spec fn first_comment_content(h: Seq<char>) -> Option<Seq<char>> {
    match comment_span(h) {
        Some((p, e)) => Some(h.subrange(p + 4, e - 3)),
        None => None,
    }
}

/// The content of the leftmost HTML comment of a text.
pub fn find_first_comment_content(content: &str) -> (r: Option<String>)
    ensures
        r matches Some(s) ==> first_comment_content(content@) == Some(s@),
        r is None ==> first_comment_content(content@) is None,
{
    proof {
        lemma_comment_span_bounds(content@);
    }
    match regex_find(HEADER_COMMENT_PATTERN, content) {
        None => None,
        Some((_before, matched)) => {
            let m = chars_of(matched.as_str());
            let inner = sub_chars(m.as_slice(), 4, m.len() - 3);
            proof {
                let (p, e) = comment_span(content@)->0;
                assert(inner@ =~= content@.subrange(p + 4, e - 3));
            }
            Some(string_from_chars(inner.as_slice()))
        },
    }
}

/// One header line as a key and a value: the trimmed texts before and after
/// its first colon.
pub open spec fn line_entry(line: Seq<char>) -> (Seq<char>, Seq<char>) {
    let i = find_char(line, ':')->0;
    (trim(line.take(i)), trim(line.skip(i + 1)))
}

/// The lines of a header: its trimmed text split at line feeds.
pub open spec fn header_lines(header: Seq<char>) -> Seq<Seq<char>> {
    split(trim(header), '\n')
}

/// Every line of the header holds a colon.
pub open spec fn header_well_formed(header: Seq<char>) -> bool {
    forall|k: int|
        0 <= k < header_lines(header).len() ==> (#[trigger] find_char(
            header_lines(header)[k],
            ':',
        )) is Some
}

/// The key-value entries of a header, in the order of its lines.
pub open spec fn header_entries(header: Seq<char>) -> Seq<(Seq<char>, Seq<char>)> {
    header_lines(header).map_values(|line: Seq<char>| line_entry(line))
}

/// The value of the last entry with the given key: a later line with the
/// same key replaces an earlier one.
pub open spec fn lookup(entries: Seq<(Seq<char>, Seq<char>)>, key: Seq<char>) -> Option<Seq<char>>
    decreases entries.len(),
{
    if entries.len() == 0 {
        None
    } else if entries.last().0 == key {
        Some(entries.last().1)
    } else {
        lookup(entries.drop_last(), key)
    }
}

/// The key-value entries of a markdown header.
pub struct HeaderEntries {
    pub keys: Vec<Vec<char>>,
    pub values: Vec<Vec<char>>,
}

impl HeaderEntries {
    /// The entries as pairs of texts.
    pub open spec fn pairs(&self) -> Seq<(Seq<char>, Seq<char>)> {
        Seq::new(self.keys@.len(), |i: int| (self.keys@[i]@, self.values@[i]@))
    }

    pub open spec fn wf(&self) -> bool {
        self.keys@.len() == self.values@.len()
    }

    /// Parses the lines of a header into entries.
    pub fn parse(header: &str) -> (r: HeaderEntries)
        requires
            header_well_formed(header@),
        ensures
            r.wf(),
            r.pairs() == header_entries(header@),
    {
        let h = chars_of(header);
        let t = trim_chars(h.as_slice());
        let lines = split_chars(t.as_slice(), '\n');
        let ghost ls = header_lines(header@);
        assert(char_views(lines@) == ls);
        let mut keys: Vec<Vec<char>> = Vec::new();
        let mut values: Vec<Vec<char>> = Vec::new();
        let mut i: usize = 0;
        while i < lines.len()
            invariant
                i <= lines.len(),
                char_views(lines@) == ls,
                header_well_formed(header@),
                ls == header_lines(header@),
                keys@.len() == i,
                values@.len() == i,
                forall|k: int|
                    0 <= k < i ==> (keys@[k]@, values@[k]@) == line_entry(#[trigger] ls[k]),
            decreases lines.len() - i,
        {
            let line = &lines[i];
            assert(line@ == ls[i as int]);
            assert(find_char(ls[i as int], ':') is Some);
            let colon = match find_char_index(line.as_slice(), ':') {
                Some(c) => c,
                None => {
                    assert(false);
                    0
                },
            };
            proof {
                lemma_find_char_bounds(line@, ':');
            }
            let before = sub_chars(line.as_slice(), 0, colon);
            let after = sub_chars(line.as_slice(), colon + 1, line.len());
            let key = trim_chars(before.as_slice());
            let value = trim_chars(after.as_slice());
            proof {
                assert(before@ =~= line@.take(colon as int));
                assert(after@ =~= line@.skip(colon + 1));
            }
            keys.push(key);
            values.push(value);
            i = i + 1;
        }
        let r = HeaderEntries { keys, values };
        assert(r.pairs() =~= header_entries(header@));
        r
    }

    /// The value of the last entry with the given key.
    pub fn get(&self, key: &str) -> (r: Option<Vec<char>>)
        requires
            self.wf(),
        ensures
            r matches Some(v) ==> lookup(self.pairs(), key@) == Some(v@),
            r is None ==> lookup(self.pairs(), key@) is None,
    {
        let k = chars_of(key);
        let mut i: usize = self.keys.len();
        assert(self.pairs().take(i as int) =~= self.pairs());
        while i > 0
            invariant
                i <= self.keys@.len(),
                self.wf(),
                k@ == key@,
                lookup(self.pairs(), key@) == lookup(self.pairs().take(i as int), key@),
            decreases i,
        {
            let ghost prefix = self.pairs().take(i as int);
            assert(prefix.last() == (self.keys@[i - 1]@, self.values@[i - 1]@));
            if chars_equal(self.keys[i - 1].as_slice(), k.as_slice()) {
                return Some(clone_chars(self.values[i - 1].as_slice()));
            }
            assert(prefix.drop_last() =~= self.pairs().take(i - 1));
            i = i - 1;
        }
        None
    }
}

/// Whether every line of a header holds a colon.
pub fn header_is_well_formed(header: &str) -> (r: bool)
    ensures
        r == header_well_formed(header@),
{
    let h = chars_of(header);
    let t = trim_chars(h.as_slice());
    let lines = split_chars(t.as_slice(), '\n');
    let ghost ls = header_lines(header@);
    assert(char_views(lines@) == ls);
    let mut i: usize = 0;
    while i < lines.len()
        invariant
            i <= lines.len(),
            char_views(lines@) == ls,
            ls == header_lines(header@),
            forall|k: int| 0 <= k < i ==> (#[trigger] find_char(ls[k], ':')) is Some,
        decreases lines.len() - i,
    {
        assert(lines@[i as int]@ == ls[i as int]);
        if find_char_index(lines[i].as_slice(), ':').is_none() {
            return false;
        }
        i = i + 1;
    }
    true
}

/// Whether two character slices hold the same characters.
pub fn chars_equal(a: &[char], b: &[char]) -> (r: bool)
    ensures
        r == (a@ == b@),
{
    if a.len() != b.len() {
        return false;
    }
    let mut i: usize = 0;
    while i < a.len()
        invariant
            i <= a.len() == b.len(),
            forall|k: int| 0 <= k < i ==> a@[k] == b@[k],
        decreases a.len() - i,
    {
        if a[i] != b[i] {
            return false;
        }
        i = i + 1;
    }
    assert(a@ =~= b@);
    true
}

/// A copy of the characters of `a`.
pub fn clone_chars(a: &[char]) -> (r: Vec<char>)
    ensures
        r@ == a@,
{
    sub_chars(a, 0, a.len())
}

/// A header comment sits at the very start of the text, between `<!--` and
/// the first `-->` after it: the text begins with `<!--`, the content, and
/// `-->`, and the content holds no `-->`.
pub proof fn header_comment_shape(h: Seq<char>)
    ensures
        header_content(h) matches Some(c) ==> {
            &&& h.take(4) == comment_open()
            &&& h.subrange(4, 4 + c.len() as int) == c
            &&& h.subrange(4 + c.len() as int, 7 + c.len() as int) == comment_close()
            &&& forall|j: int| !#[trigger] occurs_at(c, comment_close(), j)
        },
        !occurs_at(h, comment_open(), 0) ==> header_content(h) is None,
{
    if let Some((p, e)) = comment_span(h) {
        let (p0, q) = choose|p: int, q: int| #[trigger] comment_at(h, p, q);
        assert(p == p0 && e == q + 3);
        if p == 0 {
            let c = h.subrange(4, e - 3);
            assert(h.take(4) =~= h.subrange(0, 4));
            assert forall|j: int| !#[trigger] occurs_at(c, comment_close(), j) by {
                if 0 <= j && j + 3 <= c.len() {
                    assert(!occurs_at(h, comment_close(), 4 + j));
                    assert(c.subrange(j, j + 3) =~= h.subrange(4 + j, 4 + j + 3));
                }
            }
        }
    }
}

/// A later header line with a key replaces every earlier one with the same
/// key, and leaves the other keys as they were.
pub proof fn later_entry_wins(
    entries: Seq<(Seq<char>, Seq<char>)>,
    key: Seq<char>,
    value: Seq<char>,
    other: Seq<char>,
)
    requires
        other != key,
    ensures
        lookup(entries.push((key, value)), key) == Some(value),
        lookup(entries.push((key, value)), other) == lookup(entries, other),
{
    assert(entries.push((key, value)).drop_last() =~= entries);
}


/// A header line is cut at its first colon: the trimmed text before it is
/// the key, the trimmed rest (which may hold further colons) the value.
pub proof fn header_line_splits_at_first_colon(key: Seq<char>, value: Seq<char>)
    requires
        !key.contains(':'),
    ensures
        line_entry(key + seq![':'] + value) == (trim(key), trim(value)),
{
    let line = key + seq![':'] + value;
    assert forall|k: int| 0 <= k < key.len() implies line[k] != ':' by {
        assert(line[k] == key[k]);
        if line[k] == ':' {
            assert(key.contains(':'));
        }
    }
    crate::text::lemma_find_char_first(line, ':', key.len() as int);
    assert(line.take(key.len() as int) =~= key);
    assert(line.skip(key.len() + 1int) =~= value);
}

} // verus!
