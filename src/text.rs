//! Character-level string helpers shared by the catalogue logic.
use vstd::prelude::*;

verus! {

/// Relies on String::push: appends one character at the end.
#[verifier::external_body]
pub(crate) fn push_char(s: &mut String, c: char)
    ensures
        final(s)@ == old(s)@.push(c),
{
    s.push(c)
}

/// The characters of `s`, in order.
pub fn chars_of(s: &str) -> (r: Vec<char>)
    ensures
        r@ == s@,
{
    let mut r: Vec<char> = Vec::new();
    for c in it: s.chars()
        invariant
            it.seq() == s@,
            r@ == s@.subrange(0, it.index() as int),
    {
        r.push(c);
        assert(r@ =~= s@.subrange(0, it.index() + 1));
    }
    assert(r@ =~= s@);
    r
}

/// A string holding exactly the characters of `v`.
pub fn string_from_chars(v: &Vec<char>) -> (r: String)
    ensures
        r@ == v@,
{
    let mut r = String::new();
    let mut i: usize = 0;
    while i < v.len()
        invariant
            i <= v@.len(),
            r@ == v@.subrange(0, i as int),
        decreases v@.len() - i,
    {
        push_char(&mut r, v[i]);
        assert(r@ =~= v@.subrange(0, i + 1));
        i = i + 1;
    }
    assert(r@ =~= v@);
    r
}

/// Appends the characters of `t`.
pub fn push_str(s: &mut String, t: &str)
    ensures
        final(s)@ == old(s)@ + t@,
{
    let cs = chars_of(t);
    let mut i: usize = 0;
    while i < cs.len()
        invariant
            cs@ == t@,
            i <= cs@.len(),
            s@ == old(s)@ + t@.subrange(0, i as int),
        decreases cs@.len() - i,
    {
        push_char(s, cs[i]);
        assert(s@ =~= old(s)@ + t@.subrange(0, i + 1));
        i = i + 1;
    }
    assert(t@.subrange(0, t@.len() as int) =~= t@);
}

/// An owned copy of `t`.
pub fn owned(t: &str) -> (r: String)
    ensures
        r@ == t@,
{
    let mut r = String::new();
    push_str(&mut r, t);
    assert(r@ =~= t@);
    r
}

pub open spec fn is_ascii_digit(c: char) -> bool {
    '0' <= c && c <= '9'
}

pub open spec fn is_ascii_upper(c: char) -> bool {
    'A' <= c && c <= 'Z'
}

pub open spec fn is_ascii_lower(c: char) -> bool {
    'a' <= c && c <= 'z'
}

pub open spec fn is_ascii_alnum(c: char) -> bool {
    is_ascii_digit(c) || is_ascii_upper(c) || is_ascii_lower(c)
}

pub open spec fn is_hex_digit(c: char) -> bool {
    is_ascii_digit(c) || ('a' <= c && c <= 'f') || ('A' <= c && c <= 'F')
}

/// ASCII upper-case letters mapped to lower case; every other character kept.
pub open spec fn ascii_lower(c: char) -> char {
    if is_ascii_upper(c) {
        ((c as u32) + 32) as char
    } else {
        c
    }
}

pub fn ascii_alnum(c: char) -> (r: bool)
    ensures
        r == is_ascii_alnum(c),
{
    ('0' <= c && c <= '9') || ('A' <= c && c <= 'Z') || ('a' <= c && c <= 'z')
}

pub fn hex_digit_char(c: char) -> (r: bool)
    ensures
        r == is_hex_digit(c),
{
    ('0' <= c && c <= '9') || ('a' <= c && c <= 'f') || ('A' <= c && c <= 'F')
}

pub fn to_ascii_lower(c: char) -> (r: char)
    ensures
        r == ascii_lower(c),
{
    if 'A' <= c && c <= 'Z' {
        ((c as u8) + 32) as char
    } else {
        c
    }
}

/// `s` with every character passed through `ascii_lower`.
pub open spec fn lower_ascii_seq(s: Seq<char>) -> Seq<char> {
    Seq::new(s.len(), |i: int| ascii_lower(s[i]))
}

pub fn lowercase_ascii(s: &Vec<char>) -> (r: Vec<char>)
    ensures
        r@ == lower_ascii_seq(s@),
{
    let mut r: Vec<char> = Vec::new();
    let mut i: usize = 0;
    while i < s.len()
        invariant
            i <= s@.len(),
            r@ == lower_ascii_seq(s@).subrange(0, i as int),
        decreases s@.len() - i,
    {
        r.push(to_ascii_lower(s[i]));
        assert(r@ =~= lower_ascii_seq(s@).subrange(0, i + 1));
        i = i + 1;
    }
    assert(r@ =~= lower_ascii_seq(s@));
    r
}

/// Characters with the Unicode White_Space property.
pub open spec fn is_white_space(c: char) -> bool {
    ('\u{9}' <= c && c <= '\u{d}') || c == ' ' || c == '\u{85}' || c == '\u{a0}' || c
        == '\u{1680}' || ('\u{2000}' <= c && c <= '\u{200a}') || c == '\u{2028}' || c
        == '\u{2029}' || c == '\u{202f}' || c == '\u{205f}' || c == '\u{3000}'
}

pub fn white_space(c: char) -> (r: bool)
    ensures
        r == is_white_space(c),
{
    ('\u{9}' <= c && c <= '\u{d}') || c == ' ' || c == '\u{85}' || c == '\u{a0}' || c
        == '\u{1680}' || ('\u{2000}' <= c && c <= '\u{200a}') || c == '\u{2028}' || c
        == '\u{2029}' || c == '\u{202f}' || c == '\u{205f}' || c == '\u{3000}'
}

pub open spec fn trim_start(s: Seq<char>) -> Seq<char>
    decreases s.len(),
{
    if s.len() > 0 && is_white_space(s[0]) {
        trim_start(s.drop_first())
    } else {
        s
    }
}

pub open spec fn trim_end(s: Seq<char>) -> Seq<char>
    decreases s.len(),
{
    if s.len() > 0 && is_white_space(s.last()) {
        trim_end(s.drop_last())
    } else {
        s
    }
}

/// `s` without leading and trailing white space.
pub open spec fn trimmed(s: Seq<char>) -> Seq<char> {
    trim_end(trim_start(s))
}

/// Removes leading and trailing white space.
pub fn trim(s: &Vec<char>) -> (r: Vec<char>)
    ensures
        r@ == trimmed(s@),
{
    let n = s.len();
    let mut a: usize = 0;
    assert(s@.subrange(0, n as int) =~= s@);
    while a < n && white_space(s[a])
        invariant
            n == s@.len(),
            a <= n,
            trim_start(s@) == trim_start(s@.subrange(a as int, n as int)),
        decreases n - a,
    {
        assert(s@.subrange(a as int, n as int).drop_first() =~= s@.subrange(a + 1, n as int));
        a = a + 1;
    }
    assert(trim_start(s@) == s@.subrange(a as int, n as int));
    let mut b: usize = n;
    while b > a && white_space(s[b - 1])
        invariant
            n == s@.len(),
            a <= b <= n,
            trimmed(s@) == trim_end(s@.subrange(a as int, b as int)),
        decreases b - a,
    {
        assert(s@.subrange(a as int, b as int).drop_last() =~= s@.subrange(a as int, b - 1));
        b = b - 1;
    }
    let mut r: Vec<char> = Vec::new();
    let mut i: usize = a;
    while i < b
        invariant
            a <= i <= b <= n,
            n == s@.len(),
            r@ == s@.subrange(a as int, i as int),
        decreases b - i,
    {
        r.push(s[i]);
        assert(r@ =~= s@.subrange(a as int, i + 1));
        i = i + 1;
    }
    r
}

/// Character-wise equality of two strings.
pub fn str_eq(a: &str, b: &str) -> (r: bool)
    ensures
        r == (a@ == b@),
{
    let n = a.unicode_len();
    if n != b.unicode_len() {
        return false;
    }
    let mut i: usize = 0;
    while i < n
        invariant
            n == a@.len(),
            n == b@.len(),
            i <= n,
            forall|j: int| 0 <= j < i ==> a@[j] == b@[j],
        decreases n - i,
    {
        if a.get_char(i) != b.get_char(i) {
            return false;
        }
        i = i + 1;
    }
    assert(a@ =~= b@);
    true
}

/// Whether two character sequences are equal.
pub fn chars_eq(a: &Vec<char>, b: &Vec<char>) -> (r: bool)
    ensures
        r == (a@ == b@),
{
    if a.len() != b.len() {
        return false;
    }
    let mut i: usize = 0;
    while i < a.len()
        invariant
            a@.len() == b@.len(),
            i <= a@.len(),
            forall|j: int| 0 <= j < i ==> a@[j] == b@[j],
        decreases a@.len() - i,
    {
        if a[i] != b[i] {
            return false;
        }
        i = i + 1;
    }
    assert(a@ =~= b@);
    true
}

/// `needle` occurs in `hay` starting at `i`.
pub open spec fn occurs_at(hay: Seq<char>, needle: Seq<char>, i: int) -> bool {
    0 <= i && i + needle.len() <= hay.len() && hay.subrange(i, i + needle.len()) == needle
}

pub open spec fn seq_contains(hay: Seq<char>, needle: Seq<char>) -> bool {
    exists|i: int| occurs_at(hay, needle, i)
}

pub open spec fn seq_starts_with(hay: Seq<char>, prefix: Seq<char>) -> bool {
    occurs_at(hay, prefix, 0)
}

/// Whether `needle` occurs at position `i` of `hay`.
pub fn matches_at(hay: &Vec<char>, needle: &Vec<char>, i: usize) -> (r: bool)
    ensures
        r == occurs_at(hay@, needle@, i as int),
{
    if i > hay.len() || needle.len() > hay.len() - i {
        return false;
    }
    let mut k: usize = 0;
    while k < needle.len()
        invariant
            i + needle@.len() <= hay.len(),
            k <= needle@.len(),
            forall|j: int| 0 <= j < k ==> hay@[i + j] == needle@[j],
        decreases needle@.len() - k,
    {
        if hay[i + k] != needle[k] {
            assert(hay@.subrange(i as int, i + needle@.len())[k as int] != needle@[k as int]);
            return false;
        }
        k = k + 1;
    }
    assert(hay@.subrange(i as int, i + needle@.len()) =~= needle@);
    true
}

/// The first position at which `needle` occurs in `hay`.
pub fn find(hay: &Vec<char>, needle: &Vec<char>) -> (r: Option<usize>)
    ensures
        r is None <==> !seq_contains(hay@, needle@),
        r matches Some(i) ==> occurs_at(hay@, needle@, i as int) && forall|j: int|
            0 <= j < i ==> !occurs_at(hay@, needle@, j),
{
    if needle.len() == 0 {
        assert(hay@.subrange(0, 0) =~= needle@);
        assert(occurs_at(hay@, needle@, 0));
        return Some(0);
    }
    if needle.len() > hay.len() {
        return None;
    }
    let last = hay.len() - needle.len();
    let mut i: usize = 0;
    while i <= last
        invariant
            last + needle@.len() == hay.len(),
            needle@.len() > 0,
            forall|j: int| 0 <= j < i ==> !occurs_at(hay@, needle@, j),
        decreases last + 1 - i,
    {
        if matches_at(hay, needle, i) {
            return Some(i);
        }
        i = i + 1;
    }
    None
}

pub fn contains(hay: &Vec<char>, needle: &Vec<char>) -> (r: bool)
    ensures
        r == seq_contains(hay@, needle@),
{
    find(hay, needle).is_some()
}

pub fn starts_with(hay: &Vec<char>, prefix: &Vec<char>) -> (r: bool)
    ensures
        r == seq_starts_with(hay@, prefix@),
{
    matches_at(hay, prefix, 0)
}

/// `part` appended to `base` as a path: an absolute `part` replaces `base`,
/// and a separator is put between them unless `base` is empty or already
/// ends with one.
pub open spec fn path_join(base: Seq<char>, part: Seq<char>) -> Seq<char> {
    if part.len() > 0 && part[0] == '/' {
        part
    } else if base.len() == 0 || base.last() == '/' {
        base + part
    } else {
        base + seq!['/'] + part
    }
}

pub fn join_path(base: &str, part: &str) -> (r: String)
    ensures
        r@ == path_join(base@, part@),
{
    let b = chars_of(base);
    let p = chars_of(part);
    if p.len() > 0 && p[0] == '/' {
        return owned(part);
    }
    let mut r = owned(base);
    if b.len() > 0 && b[b.len() - 1] != '/' {
        push_char(&mut r, '/');
    }
    push_str(&mut r, part);
    r
}

} // verus!
