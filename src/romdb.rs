//! Title database per console and box-art locations.
use crate::text::{
    ascii_alnum, ascii_lower, chars_of, contains, is_ascii_alnum, join_path, owned, path_join,
    push_char, push_str, seq_contains, string_from_chars, to_ascii_lower, trim, trimmed, chars_eq,
    find, hex_digit_char, is_hex_digit, is_white_space, lower_ascii_seq, lowercase_ascii, occurs_at,
    seq_starts_with, starts_with, trim_start, white_space,
};
use crate::search::{
    first_index, lemma_first_index_agree, lemma_first_index_none, lemma_first_index_props,
    lemma_first_index_some,
};
use crate::types::System;
use vstd::prelude::*;
use vstd::utf8::encode_utf8;

verus! {

pub open spec fn spec_system_id(system: System) -> Seq<char> {
    match system {
        System::Nes => "nes"@,
        System::Snes => "snes"@,
        System::Gbc => "gbc"@,
        System::Gba => "gba"@,
    }
}

/// The short name of a console, used in cache paths.
pub fn system_id(system: System) -> (r: &'static str)
    ensures
        r@ == spec_system_id(system),
{
    match system {
        System::Nes => "nes",
        System::Snes => "snes",
        System::Gbc => "gbc",
        System::Gba => "gba",
    }
}

pub open spec fn spec_thumbnail_folder(system: System) -> Seq<char> {
    match system {
        System::Nes => "Nintendo - Nintendo Entertainment System"@,
        System::Snes => "Nintendo - Super Nintendo Entertainment System"@,
        System::Gbc => "Nintendo - Game Boy Color"@,
        System::Gba => "Nintendo - Game Boy Advance"@,
    }
}

/// The box-art server's folder for a console.
pub fn system_thumbnail_folder(system: System) -> (r: &'static str)
    ensures
        r@ == spec_thumbnail_folder(system),
{
    match system {
        System::Nes => "Nintendo - Nintendo Entertainment System",
        System::Snes => "Nintendo - Super Nintendo Entertainment System",
        System::Gbc => "Nintendo - Game Boy Color",
        System::Gba => "Nintendo - Game Boy Advance",
    }
}

pub open spec fn spec_dat_url(system: System) -> Seq<char> {
    match system {
        System::Nes => "https://raw.githubusercontent.com/libretro/libretro-database/master/metadat/no-intro/Nintendo%20-%20Nintendo%20Entertainment%20System.dat"@,
        System::Snes => "https://raw.githubusercontent.com/libretro/libretro-database/master/metadat/no-intro/Nintendo%20-%20Super%20Nintendo%20Entertainment%20System.dat"@,
        System::Gbc => "https://raw.githubusercontent.com/libretro/libretro-database/master/metadat/no-intro/Nintendo%20-%20Game%20Boy%20Color.dat"@,
        System::Gba => "https://raw.githubusercontent.com/libretro/libretro-database/master/metadat/no-intro/Nintendo%20-%20Game%20Boy%20Advance.dat"@,
    }
}

/// Where the title database (a DAT file) of a console is published.
pub fn system_dat_url(system: System) -> (r: &'static str)
    ensures
        r@ == spec_dat_url(system),
{
    match system {
        System::Nes => "https://raw.githubusercontent.com/libretro/libretro-database/master/metadat/no-intro/Nintendo%20-%20Nintendo%20Entertainment%20System.dat",
        System::Snes => "https://raw.githubusercontent.com/libretro/libretro-database/master/metadat/no-intro/Nintendo%20-%20Super%20Nintendo%20Entertainment%20System.dat",
        System::Gbc => "https://raw.githubusercontent.com/libretro/libretro-database/master/metadat/no-intro/Nintendo%20-%20Game%20Boy%20Color.dat",
        System::Gba => "https://raw.githubusercontent.com/libretro/libretro-database/master/metadat/no-intro/Nintendo%20-%20Game%20Boy%20Advance.dat",
    }
}

/// Characters the box-art server replaces with `_` in file names.
pub open spec fn is_reserved_in_thumbnail(c: char) -> bool {
    c == '&' || c == '*' || c == '/' || c == ':' || c == '`' || c == '<' || c == '>' || c == '?'
        || c == '\\' || c == '|'
}

pub open spec fn sanitized(title: Seq<char>) -> Seq<char> {
    Seq::new(
        title.len(),
        |i: int|
            if is_reserved_in_thumbnail(title[i]) {
                '_'
            } else {
                title[i]
            },
    )
}

/// The title as the box-art server names its files: each reserved character
/// becomes `_`.
pub fn sanitize_thumbnail_title(title: &str) -> (r: String)
    ensures
        r@ == sanitized(title@),
{
    let cs = chars_of(title);
    let mut out = String::new();
    let mut i: usize = 0;
    while i < cs.len()
        invariant
            cs@ == title@,
            i <= cs@.len(),
            out@ == sanitized(title@).subrange(0, i as int),
        decreases cs@.len() - i,
    {
        let c = cs[i];
        let reserved = c == '&' || c == '*' || c == '/' || c == ':' || c == '`' || c == '<' || c
            == '>' || c == '?' || c == '\\' || c == '|';
        if reserved {
            push_char(&mut out, '_');
        } else {
            push_char(&mut out, c);
        }
        assert(out@ =~= sanitized(title@).subrange(0, i + 1));
        i = i + 1;
    }
    assert(out@ =~= sanitized(title@));
    out
}

/// Bytes left as they are in a URL path segment: ASCII letters and digits
/// and `-`, `_`, `.`, `~`.
pub open spec fn is_unreserved(b: u8) -> bool {
    (48 <= b && b <= 57) || (65 <= b && b <= 90) || (97 <= b && b <= 122) || b == 45 || b == 95
        || b == 46 || b == 126
}

/// Upper-case hexadecimal digit of `n` (below 16).
pub open spec fn hex_upper(n: int) -> char {
    if n < 10 {
        (48 + n) as char
    } else {
        (55 + n) as char
    }
}

pub open spec fn encode_byte(b: u8) -> Seq<char> {
    if is_unreserved(b) {
        seq![(b as u32) as char]
    } else {
        seq!['%', hex_upper(b as int / 16), hex_upper(b as int % 16)]
    }
}

/// Percent-encoding of a byte string, byte by byte.
pub open spec fn percent_encoded(bs: Seq<u8>) -> Seq<char>
    decreases bs.len(),
{
    if bs.len() == 0 {
        Seq::empty()
    } else {
        percent_encoded(bs.drop_last()) + encode_byte(bs.last())
    }
}

fn hex_digit(n: u8) -> (r: char)
    requires
        n < 16,
    ensures
        r == hex_upper(n as int),
{
    if n < 10 {
        (48u8 + n) as char
    } else {
        (55u8 + n) as char
    }
}

/// Percent-encodes the UTF-8 bytes of `segment` for use as one URL path
/// segment.
pub fn percent_encode_path_segment(segment: &str) -> (r: String)
    ensures
        r@ == percent_encoded(encode_utf8(segment@)),
{
    let bytes = segment.as_bytes();
    let mut out = String::new();
    let mut i: usize = 0;
    while i < bytes.len()
        invariant
            bytes@ == encode_utf8(segment@),
            i <= bytes@.len(),
            out@ == percent_encoded(bytes@.subrange(0, i as int)),
        decreases bytes@.len() - i,
    {
        let b = bytes[i];
        let unreserved = (48 <= b && b <= 57) || (65 <= b && b <= 90) || (97 <= b && b <= 122) || b
            == 45 || b == 95 || b == 46 || b == 126;
        if unreserved {
            push_char(&mut out, b as char);
        } else {
            push_char(&mut out, '%');
            push_char(&mut out, hex_digit(b / 16));
            push_char(&mut out, hex_digit(b % 16));
        }
        proof {
            let pre = bytes@.subrange(0, i + 1);
            assert(pre.drop_last() =~= bytes@.subrange(0, i as int));
            assert(out@ =~= percent_encoded(pre));
        }
        i = i + 1;
    }
    assert(bytes@.subrange(0, bytes@.len() as int) =~= bytes@);
    out
}

/// The box-art file name of a title.
pub open spec fn thumbnail_file_name(title: Seq<char>) -> Seq<char> {
    sanitized(title) + ".png"@
}

fn thumbnail_file(title: &str) -> (r: String)
    ensures
        r@ == thumbnail_file_name(title@),
{
    let mut name = sanitize_thumbnail_title(title);
    push_str(&mut name, ".png");
    name
}

pub open spec fn thumbnail_url(system: System, title: Seq<char>) -> Seq<char> {
    "https://thumbnails.libretro.com/"@ + percent_encoded(encode_utf8(spec_thumbnail_folder(system)))
        + "/Named_Boxarts/"@ + percent_encoded(encode_utf8(thumbnail_file_name(title)))
}

/// The URL of a title's box art on the thumbnail server.
pub fn build_thumbnail_url(system: System, title: &str) -> (r: String)
    ensures
        r@ == thumbnail_url(system, title@),
{
    let folder = system_thumbnail_folder(system);
    let filename = thumbnail_file(title);
    let folder_segment = percent_encode_path_segment(folder);
    let file_segment = percent_encode_path_segment(filename.as_str());
    let mut url = owned("https://thumbnails.libretro.com/");
    push_str(&mut url, folder_segment.as_str());
    push_str(&mut url, "/Named_Boxarts/");
    push_str(&mut url, file_segment.as_str());
    assert(url@ =~= thumbnail_url(system, title@));
    url
}

/// Where a title's box art is cached: `<cache_root>/<system id>/<file>`.
pub fn cover_path(cache_root: &str, system: System, title: &str) -> (r: String)
    ensures
        r@ == path_join(path_join(cache_root@, spec_system_id(system)), thumbnail_file_name(title@)),
{
    let dir = join_path(cache_root, system_id(system));
    let file = thumbnail_file(title);
    join_path(dir.as_str(), file.as_str())
}

/// Lower-case letters and digits kept, everything else a space.
pub open spec fn norm_char(c: char) -> char {
    if is_ascii_alnum(c) {
        ascii_lower(c)
    } else {
        ' '
    }
}

/// `s` through `norm_char`, with each run of spaces collapsed to one.
pub open spec fn collapse_spaces(s: Seq<char>) -> Seq<char>
    decreases s.len(),
{
    if s.len() == 0 {
        Seq::empty()
    } else {
        let prev = collapse_spaces(s.drop_last());
        let c = norm_char(s.last());
        if c == ' ' && prev.len() > 0 && prev.last() == ' ' {
            prev
        } else {
            prev.push(c)
        }
    }
}

/// A title reduced for comparison: lower-case letters and digits separated
/// by single spaces.
pub open spec fn normalized(title: Seq<char>) -> Seq<char> {
    trimmed(collapse_spaces(title))
}

fn normalize_chars(cs: &Vec<char>) -> (r: Vec<char>)
    ensures
        r@ == normalized(cs@),
{
    let mut out: Vec<char> = Vec::new();
    let mut last_space = false;
    let mut i: usize = 0;
    while i < cs.len()
        invariant
            i <= cs@.len(),
            out@ == collapse_spaces(cs@.subrange(0, i as int)),
            last_space == (out@.len() > 0 && out@.last() == ' '),
        decreases cs@.len() - i,
    {
        let ch = cs[i];
        let normalized_ch = if ascii_alnum(ch) {
            to_ascii_lower(ch)
        } else {
            ' '
        };
        proof {
            let pre = cs@.subrange(0, i + 1);
            assert(pre.drop_last() =~= cs@.subrange(0, i as int));
        }
        if normalized_ch == ' ' {
            if !last_space {
                out.push(' ');
                last_space = true;
            }
        } else {
            out.push(normalized_ch);
            last_space = false;
        }
        i = i + 1;
    }
    assert(cs@.subrange(0, cs@.len() as int) =~= cs@);
    trim(&out)
}

/// Reduces a title for comparison (see `normalized`).
pub fn normalize_title(title: &str) -> (r: String)
    ensures
        r@ == normalized(title@),
{
    let cs = chars_of(title);
    string_from_chars(&normalize_chars(&cs))
}

/// The output so far and the parenthesis and bracket depths after scanning
/// `s`.
pub open spec fn strip_state(s: Seq<char>) -> (Seq<char>, int, int)
    decreases s.len(),
{
    if s.len() == 0 {
        (Seq::empty(), 0, 0)
    } else {
        let (o, p, b) = strip_state(s.drop_last());
        let c = s.last();
        if c == '(' {
            (o, p + 1, b)
        } else if c == ')' {
            (o, if p > 0 {
                p - 1
            } else {
                0
            }, b)
        } else if c == '[' {
            (o, p, b + 1)
        } else if c == ']' {
            (o, p, if b > 0 {
                b - 1
            } else {
                0
            })
        } else if p == 0 && b == 0 {
            (o.push(c), p, b)
        } else {
            (o, p, b)
        }
    }
}

/// `s` without parenthesised or bracketed segments, the delimiters
/// included; an unmatched closer is ignored.
pub open spec fn stripped(s: Seq<char>) -> Seq<char> {
    strip_state(s).0
}

proof fn lemma_strip_depths(s: Seq<char>)
    ensures
        0 <= strip_state(s).1 <= s.len(),
        0 <= strip_state(s).2 <= s.len(),
    decreases s.len(),
{
    if s.len() > 0 {
        lemma_strip_depths(s.drop_last());
    }
}

fn strip_chars(cs: &Vec<char>) -> (r: Vec<char>)
    ensures
        r@ == stripped(cs@),
{
    let mut out: Vec<char> = Vec::new();
    let mut paren_depth: usize = 0;
    let mut bracket_depth: usize = 0;
    let mut i: usize = 0;
    while i < cs.len()
        invariant
            i <= cs.len(),
            strip_state(cs@.subrange(0, i as int)) == (out@, paren_depth as int, bracket_depth as int),
        decreases cs@.len() - i,
    {
        proof {
            let pre = cs@.subrange(0, i + 1);
            assert(pre.drop_last() =~= cs@.subrange(0, i as int));
            lemma_strip_depths(cs@.subrange(0, i as int));
        }
        let ch = cs[i];
        if ch == '(' {
            paren_depth = paren_depth + 1;
        } else if ch == ')' {
            if paren_depth > 0 {
                paren_depth = paren_depth - 1;
            }
        } else if ch == '[' {
            bracket_depth = bracket_depth + 1;
        } else if ch == ']' {
            if bracket_depth > 0 {
                bracket_depth = bracket_depth - 1;
            }
        } else if paren_depth == 0 && bracket_depth == 0 {
            out.push(ch);
        }
        i = i + 1;
    }
    assert(cs@.subrange(0, cs@.len() as int) =~= cs@);
    out
}

/// Removes parenthesised and bracketed segments (see `stripped`).
pub fn strip_bracketed_segments(title: &str) -> (r: String)
    ensures
        r@ == stripped(title@),
{
    let cs = chars_of(title);
    string_from_chars(&strip_chars(&cs))
}

/// A title reduced for comparison after dropping its region, revision and
/// similar tags.
pub open spec fn normalized_base(title: Seq<char>) -> Seq<char> {
    normalized(stripped(title))
}

pub fn normalize_base_title(title: &str) -> (r: String)
    ensures
        r@ == normalized_base(title@),
{
    let cs = chars_of(title);
    string_from_chars(&normalize_chars(&strip_chars(&cs)))
}




/// The indices below `len` at which `p` holds, in increasing order.
pub open spec fn indices_where(len: nat, p: spec_fn(int) -> bool) -> Seq<int>
    decreases len,
{
    if len == 0 {
        Seq::empty()
    } else if p(len - 1) {
        indices_where((len - 1) as nat, p).push(len - 1)
    } else {
        indices_where((len - 1) as nat, p)
    }
}

/// Title of the first index in `ms` whose title passes `q`.
pub open spec fn first_title_where(titles: Seq<Seq<char>>, ms: Seq<int>, q: spec_fn(Seq<char>) -> bool) -> Option<Seq<char>> {
    match first_index(ms.len(), |k: int| q(titles[ms[k]])) {
        Some(k) => Some(titles[ms[k]]),
        None => None,
    }
}

/// Region tags preferred, in order, among equally good matches.
pub open spec fn preferred_tag(k: int) -> Seq<char> {
    if k == 0 {
        "(USA"@
    } else if k == 1 {
        "(World"@
    } else {
        "(Europe"@
    }
}

/// Title of the first of `ms` whose title carries the `k`-th preferred tag.
pub open spec fn tag_match(titles: Seq<Seq<char>>, ms: Seq<int>, k: int) -> Option<Seq<char>> {
    first_title_where(titles, ms, |t: Seq<char>| seq_contains(t, preferred_tag(k)))
}

/// The database title that best matches a free-form title: an exact match
/// after normalisation; else the only title with the same base; else among
/// those, the first whose normalised form contains the candidate's, then the
/// first tagged USA, World or Europe (in that order of preference), then the
/// first.
pub open spec fn best_match_of(titles: Seq<Seq<char>>, candidate: Seq<char>) -> Option<Seq<char>> {
    let n = normalized(candidate);
    let base = normalized_base(candidate);
    let ms = indices_where(titles.len(), |i: int| normalized_base(titles[i]) == base);
    if titles.len() == 0 || n.len() == 0 {
        None
    } else if first_index(titles.len(), |i: int| normalized(titles[i]) == n) is Some {
        Some(titles[first_index(titles.len(), |i: int| normalized(titles[i]) == n)->0])
    } else if base.len() == 0 || ms.len() == 0 {
        None
    } else if ms.len() == 1 {
        Some(titles[ms[0]])
    } else if n != base && first_title_where(titles, ms, |t: Seq<char>| seq_contains(normalized(t), n)) is Some {
        first_title_where(titles, ms, |t: Seq<char>| seq_contains(normalized(t), n))
    } else if tag_match(titles, ms, 0) is Some {
        tag_match(titles, ms, 0)
    } else if tag_match(titles, ms, 1) is Some {
        tag_match(titles, ms, 1)
    } else if tag_match(titles, ms, 2) is Some {
        tag_match(titles, ms, 2)
    } else {
        Some(titles[ms[0]])
    }
}

pub open spec fn strings_view(v: Seq<String>) -> Seq<Seq<char>> {
    Seq::new(v.len(), |i: int| v[i]@)
}

/// Known ROM checksums with their titles, and the distinct titles in the
/// order they were first seen, with their normalised forms kept alongside.
#[derive(Debug)]
pub struct RomDatabase {
    sha1_to_title: Vec<(String, String)>,
    titles: Vec<String>,
    normalized_titles: Vec<Vec<char>>,
    normalized_base_titles: Vec<Vec<char>>,
}

/// The title recorded for `key` in a list of (key, title) pairs: that of its
/// first occurrence.
pub open spec fn lookup(entries: Seq<(Seq<char>, Seq<char>)>, key: Seq<char>) -> Option<Seq<char>> {
    match first_index(entries.len(), |i: int| entries[i].0 == key) {
        Some(i) => Some(entries[i].1),
        None => None,
    }
}

pub open spec fn pairs_view(v: Seq<(String, String)>) -> Seq<(Seq<char>, Seq<char>)> {
    Seq::new(v.len(), |i: int| (v[i].0@, v[i].1@))
}

impl RomDatabase {
    /// The distinct titles, in the order they were first seen.
    pub closed spec fn spec_titles(&self) -> Seq<Seq<char>> {
        strings_view(self.titles@)
    }

    /// The title recorded for a checksum.
    pub closed spec fn spec_title_for(&self, sha1: Seq<char>) -> Option<Seq<char>> {
        lookup(pairs_view(self.sha1_to_title@), sha1)
    }

    #[verifier::type_invariant]
    closed spec fn wf(&self) -> bool {
        &&& self.normalized_titles@.len() == self.titles@.len()
        &&& self.normalized_base_titles@.len() == self.titles@.len()
        &&& forall|i: int|
            0 <= i < self.titles@.len() ==> #[trigger] self.normalized_titles@[i]@ == normalized(
                self.titles@[i]@,
            )
        &&& forall|i: int|
            0 <= i < self.titles@.len() ==> #[trigger] self.normalized_base_titles@[i]@
                == normalized_base(self.titles@[i]@)
    }

    /// A database of the given checksum/title pairs and titles, with the
    /// normalised forms of the titles computed once.
    pub fn from_parts(sha1_to_title: Vec<(String, String)>, titles: Vec<String>) -> (r: RomDatabase)
        ensures
            r.spec_titles() == strings_view(titles@),
            forall|k: Seq<char>| r.spec_title_for(k) == lookup(pairs_view(sha1_to_title@), k),
    {
        let mut normalized_titles: Vec<Vec<char>> = Vec::new();
        let mut normalized_base_titles: Vec<Vec<char>> = Vec::new();
        let mut i: usize = 0;
        while i < titles.len()
            invariant
                i <= titles@.len(),
                normalized_titles@.len() == i,
                normalized_base_titles@.len() == i,
                forall|j: int|
                    0 <= j < i ==> #[trigger] normalized_titles@[j]@ == normalized(titles@[j]@),
                forall|j: int|
                    0 <= j < i ==> #[trigger] normalized_base_titles@[j]@ == normalized_base(
                        titles@[j]@,
                    ),
            decreases titles@.len() - i,
        {
            let cs = chars_of(titles[i].as_str());
            normalized_titles.push(normalize_chars(&cs));
            normalized_base_titles.push(normalize_chars(&strip_chars(&cs)));
            i = i + 1;
        }
        RomDatabase { sha1_to_title, titles, normalized_titles, normalized_base_titles }
    }

    /// The title recorded for a ROM checksum.
    pub fn title_for_sha1(&self, sha1: &str) -> (r: Option<&str>)
        ensures
            match self.spec_title_for(sha1@) {
                Some(t) => r is Some && r->0@ == t,
                None => r is None,
            },
    {
        let ghost entries = pairs_view(self.sha1_to_title@);
        let ghost p = |i: int| entries[i].0 == sha1@;
        let mut i: usize = 0;
        while i < self.sha1_to_title.len()
            invariant
                i <= self.sha1_to_title@.len(),
                entries == pairs_view(self.sha1_to_title@),
                p == (|i: int| entries[i].0 == sha1@),
                forall|j: int| 0 <= j < i ==> !#[trigger] p(j),
            decreases self.sha1_to_title@.len() - i,
        {
            if crate::text::str_eq(self.sha1_to_title[i].0.as_str(), sha1) {
                proof {
                    lemma_first_index_some(entries.len(), p, i as int);
                }
                return Some(self.sha1_to_title[i].1.as_str());
            }
            i = i + 1;
        }
        proof {
            lemma_first_index_none(entries.len(), p);
        }
        None
    }

    /// The distinct titles, in the order they were first seen.
    pub fn titles(&self) -> (r: &[String])
        ensures
            strings_view(r@) == self.spec_titles(),
    {
        self.titles.as_slice()
    }

    /// The index, in `titles`, of the first listed match whose title (or its
    /// normalised form, when `use_normalized`) contains `needle`.
    fn first_match_containing(
        &self,
        ms: &Vec<usize>,
        needle: &Vec<char>,
        use_normalized: bool,
        Ghost(q): Ghost<spec_fn(Seq<char>) -> bool>,
    ) -> (r: Option<usize>)
        requires
            self.wf(),
            forall|j: int| 0 <= j < ms@.len() ==> ms@[j] < self.titles@.len(),
            forall|t: Seq<char>|
                #[trigger] q(t) == if use_normalized {
                    seq_contains(normalized(t), needle@)
                } else {
                    seq_contains(t, needle@)
                },
        ensures
            match first_title_where(self.spec_titles(), ms@.map_values(|x: usize| x as int), q) {
                Some(t) => r is Some && r->0 < self.titles@.len() && self.titles@[r->0 as int]@ == t,
                None => r is None,
            },
    {
        let ghost titles = self.spec_titles();
        let ghost msv = ms@.map_values(|x: usize| x as int);
        let ghost p = |k: int| q(titles[msv[k]]);
        let mut k: usize = 0;
        while k < ms.len()
            invariant
                self.wf(),
                titles == self.spec_titles(),
                msv == ms@.map_values(|x: usize| x as int),
                p == (|k: int| q(titles[msv[k]])),
                forall|j: int| 0 <= j < ms@.len() ==> ms@[j] < self.titles@.len(),
                forall|t: Seq<char>|
                    #[trigger] q(t) == if use_normalized {
                        seq_contains(normalized(t), needle@)
                    } else {
                        seq_contains(t, needle@)
                    },
                k <= ms@.len(),
                forall|j: int| 0 <= j < k ==> !#[trigger] p(j),
            decreases ms@.len() - k,
        {
            let m = ms[k];
            let hit = if use_normalized {
                contains(&self.normalized_titles[m], needle)
            } else {
                contains(&chars_of(self.titles[m].as_str()), needle)
            };
            if hit {
                proof {
                    lemma_first_index_some(msv.len(), p, k as int);
                }
                return Some(m);
            }
            k = k + 1;
        }
        proof {
            lemma_first_index_none(msv.len(), p);
        }
        None
    }

    /// The database title that best matches a free-form title (see
    /// `best_match_of`).
    pub fn best_match(&self, candidate: &str) -> (r: Option<String>)
        ensures
            match best_match_of(self.spec_titles(), candidate@) {
                Some(t) => r is Some && r->0@ == t,
                None => r is None,
            },
    {
        proof {
            use_type_invariant(self);
        }
        let ghost titles = self.spec_titles();
        if self.titles.len() == 0 {
            return None;
        }
        let cs = chars_of(candidate);
        let normalized_candidate = normalize_chars(&cs);
        if normalized_candidate.len() == 0 {
            return None;
        }
        let ghost n = normalized_candidate@;
        assert(cs@ == candidate@);
        assert(n == normalized(candidate@));
        let ghost pe = |i: int| normalized(titles[i]) == n;
        let mut idx: usize = 0;
        while idx < self.titles.len()
            invariant
                self.wf(),
                titles == self.spec_titles(),
                n == normalized_candidate@,
                n == normalized(candidate@),
                titles.len() > 0,
                n.len() > 0,
                pe == (|i: int| normalized(titles[i]) == n),
                idx <= self.titles@.len(),
                forall|j: int| 0 <= j < idx ==> !#[trigger] pe(j),
            decreases self.titles@.len() - idx,
        {
            if chars_eq(&self.normalized_titles[idx], &normalized_candidate) {
                proof {
                    lemma_first_index_some(titles.len(), pe, idx as int);
                    assert(pe =~= (|i: int| normalized(titles[i]) == normalized(candidate@)));
                }
                let t = self.titles[idx].clone();
                assert(t@ == titles[idx as int]);
                return Some(t);
            }
            idx = idx + 1;
        }
        proof {
            lemma_first_index_none(titles.len(), pe);
        }
        let base = normalize_chars(&strip_chars(&cs));
        if base.len() == 0 {
            return None;
        }
        assert(base@ == normalized_base(candidate@));
        let ghost pm = |i: int| normalized_base(titles[i]) == base@;
        let mut matches: Vec<usize> = Vec::new();
        let mut i: usize = 0;
        while i < self.titles.len()
            invariant
                self.wf(),
                titles == self.spec_titles(),
                pm == (|i: int| normalized_base(titles[i]) == base@),
                base@ == normalized_base(candidate@),
                i <= self.titles@.len(),
                matches@.map_values(|x: usize| x as int) == indices_where(i as nat, pm),
                forall|j: int| 0 <= j < matches@.len() ==> matches@[j] < i,
            decreases self.titles@.len() - i,
        {
            if chars_eq(&self.normalized_base_titles[i], &base) {
                matches.push(i);
            }
            assert(matches@.map_values(|x: usize| x as int) =~= indices_where((i + 1) as nat, pm));
            i = i + 1;
        }
        let ghost ms = matches@.map_values(|x: usize| x as int);
        if matches.len() == 0 {
            return None;
        }
        if matches.len() == 1 {
            return Some(self.titles[matches[0]].clone());
        }
        if !chars_eq(&normalized_candidate, &base) {
            let ghost q = |t: Seq<char>| seq_contains(normalized(t), n);
            match self.first_match_containing(&matches, &normalized_candidate, true, Ghost(q)) {
                Some(m) => {
                    return Some(self.titles[m].clone());
                },
                None => {},
            }
        }
        let mut k: usize = 0;
        while k < 3
            invariant
                self.wf(),
                titles == self.spec_titles(),
                ms == matches@.map_values(|x: usize| x as int),
                ms == indices_where(titles.len(), pm),
                pm == (|i: int| normalized_base(titles[i]) == base@),
                base@ == normalized_base(candidate@),
                n == normalized(candidate@),
                titles.len() > 0,
                n.len() > 0,
                base@.len() > 0,
                first_index(titles.len(), pe) is None,
                pe == (|i: int| normalized(titles[i]) == n),
                !(n != base@ && first_title_where(titles, ms, |t: Seq<char>| seq_contains(normalized(t), n)) is Some),
                matches@.len() > 1,
                forall|j: int| 0 <= j < matches@.len() ==> matches@[j] < self.titles@.len(),
                k <= 3,
                forall|j: int| 0 <= j < k ==> #[trigger] tag_match(titles, ms, j) is None,
            decreases 3 - k,
        {
            let tag = if k == 0 {
                "(USA"
            } else if k == 1 {
                "(World"
            } else {
                "(Europe"
            };
            let needle = chars_of(tag);
            let ghost q = |t: Seq<char>| seq_contains(t, preferred_tag(k as int));
            match self.first_match_containing(&matches, &needle, false, Ghost(q)) {
                Some(m) => {
                    assert(tag_match(titles, ms, k as int) is Some);
                    return Some(self.titles[m].clone());
                },
                None => {},
            }
            k = k + 1;
        }
        Some(self.titles[matches[0]].clone())
    }
} // impl RomDatabase

/// The official title of a ROM: a user override first; else, from the
/// console's database, the title of its checksum, then (SNES only) of its
/// checksum without copier header, then the best match of its display title,
/// then the best match of its file-name title when that differs.
pub open spec fn official_title_of(
    override_title: Option<Seq<char>>,
    db: Option<RomDatabase>,
    rom_sha1: Seq<char>,
    headerless_sha1: Option<Seq<char>>,
    system: System,
    display_title: Seq<char>,
    rom_path: Seq<char>,
) -> Option<Seq<char>> {
    if override_title is Some {
        override_title
    } else if db is None {
        None
    } else {
        let d = db->0;
        let fallback = crate::library::title_for_path(rom_path);
        if d.spec_title_for(rom_sha1) is Some {
            d.spec_title_for(rom_sha1)
        } else if system == System::Snes && headerless_sha1 is Some && d.spec_title_for(
            headerless_sha1->0,
        ) is Some {
            d.spec_title_for(headerless_sha1->0)
        } else if best_match_of(d.spec_titles(), display_title) is Some {
            best_match_of(d.spec_titles(), display_title)
        } else if fallback != display_title {
            best_match_of(d.spec_titles(), fallback)
        } else {
            None
        }
    }
}

/// Resolves the official title of a ROM (see `official_title_of`). The
/// database of its console, when it could be loaded, and the checksum of
/// the image without its copier header, when it has one, are looked up by
/// the caller.
pub fn resolve_official_title(
    override_title: Option<&str>,
    db: Option<&RomDatabase>,
    rom_sha1: &str,
    headerless_sha1: Option<&str>,
    system: System,
    display_title: &str,
    rom_path: &str,
) -> (r: Option<String>)
    ensures
        match official_title_of(
            match override_title {
                Some(t) => Some(t@),
                None => None,
            },
            match db {
                Some(d) => Some(*d),
                None => None,
            },
            rom_sha1@,
            match headerless_sha1 {
                Some(h) => Some(h@),
                None => None,
            },
            system,
            display_title@,
            rom_path@,
        ) {
            Some(t) => r is Some && r->0@ == t,
            None => r is None,
        },
{
    match override_title {
        Some(t) => return Some(owned(t)),
        None => {},
    }
    let d = match db {
        Some(d) => d,
        None => return None,
    };
    match d.title_for_sha1(rom_sha1) {
        Some(t) => return Some(owned(t)),
        None => {},
    }
    if system == System::Snes {
        match headerless_sha1 {
            Some(h) => match d.title_for_sha1(h) {
                Some(t) => return Some(owned(t)),
                None => {},
            },
            None => {},
        }
    }
    match d.best_match(display_title) {
        Some(t) => return Some(t),
        None => {},
    }
    let fallback = crate::library::title_from_rom_path(rom_path);
    if !crate::text::str_eq(fallback.as_str(), display_title) {
        return d.best_match(fallback.as_str());
    }
    None
}



/// The text between the first two double quotes of a line.
pub open spec fn quoted_value(t: Seq<char>) -> Option<Seq<char>> {
    match first_index(t.len(), |i: int| t[i] == '"') {
        None => None,
        Some(a) => match first_index((t.len() - a - 1) as nat, |j: int| t[a + 1 + j] == '"') {
            None => None,
            Some(b) => Some(t.subrange(a + 1, a + 1 + b)),
        },
    }
}

/// The text between the first two double quotes of `line`.
pub fn extract_quoted_value(line: &Vec<char>) -> (r: Option<Vec<char>>)
    ensures
        match quoted_value(line@) {
            Some(v) => r is Some && r->0@ == v,
            None => r is None,
        },
{
    let ghost t = line@;
    let ghost pa = |i: int| t[i] == '"';
    let mut a: usize = 0;
    while a < line.len() && line[a] != '"'
        invariant
            t == line@,
            pa == (|i: int| t[i] == '"'),
            a <= line@.len(),
            forall|j: int| 0 <= j < a ==> !#[trigger] pa(j),
        decreases line@.len() - a,
    {
        a = a + 1;
    }
    if a == line.len() {
        proof {
            lemma_first_index_none(t.len(), pa);
        }
        return None;
    }
    proof {
        lemma_first_index_some(t.len(), pa, a as int);
    }
    let ghost pb = |j: int| t[a + 1 + j] == '"';
    let mut b: usize = a + 1;
    while b < line.len() && line[b] != '"'
        invariant
            t == line@,
            pb == (|j: int| t[a + 1 + j] == '"'),
            a < b <= line@.len(),
            forall|j: int| 0 <= j < b - a - 1 ==> !#[trigger] pb(j),
        decreases line@.len() - b,
    {
        b = b + 1;
    }
    if b == line.len() {
        proof {
            lemma_first_index_none((t.len() - a - 1) as nat, pb);
        }
        return None;
    }
    proof {
        lemma_first_index_some((t.len() - a - 1) as nat, pb, (b - a - 1) as int);
    }
    let mut v: Vec<char> = Vec::new();
    let mut i: usize = a + 1;
    while i < b
        invariant
            a < i <= b < line@.len(),
            v@ == line@.subrange(a + 1, i as int),
        decreases b - i,
    {
        v.push(line[i]);
        assert(v@ =~= line@.subrange(a + 1, i + 1));
        i = i + 1;
    }
    Some(v)
}

/// The first run of non-white-space characters of `s`.
pub open spec fn first_token(s: Seq<char>) -> Option<Seq<char>> {
    let u = trim_start(s);
    if u.len() == 0 {
        None
    } else {
        match first_index(u.len(), |i: int| is_white_space(u[i])) {
            Some(e) => Some(u.subrange(0, e)),
            None => Some(u),
        }
    }
}

/// The hexadecimal digits of `s`, in order.
pub open spec fn hex_only(s: Seq<char>) -> Seq<char>
    decreases s.len(),
{
    if s.len() == 0 {
        Seq::empty()
    } else if is_hex_digit(s.last()) {
        hex_only(s.drop_last()).push(s.last())
    } else {
        hex_only(s.drop_last())
    }
}

/// The checksum of a DAT `rom (...)` line: the hexadecimal digits of the
/// word after the first `sha1`, lower-cased, when there are exactly 40.
pub open spec fn sha1_field(t: Seq<char>) -> Option<Seq<char>> {
    match first_index(t.len(), |i: int| occurs_at(t, "sha1"@, i)) {
        None => None,
        Some(idx) => match first_token(t.subrange(idx + 4, t.len() as int)) {
            None => None,
            Some(tok) => if hex_only(tok).len() == 40 {
                Some(lower_ascii_seq(hex_only(tok)))
            } else {
                None
            },
        },
    }
}

/// The word of `s` that `first_token` names.
fn token_of(s: &Vec<char>, from: usize) -> (r: Option<Vec<char>>)
    requires
        from <= s@.len(),
    ensures
        match first_token(s@.subrange(from as int, s@.len() as int)) {
            Some(v) => r is Some && r->0@ == v,
            None => r is None,
        },
{
    let ghost rest = s@.subrange(from as int, s@.len() as int);
    let mut a: usize = from;
    while a < s.len() && white_space(s[a])
        invariant
            rest == s@.subrange(from as int, s@.len() as int),
            from <= a <= s@.len(),
            trim_start(rest) == trim_start(s@.subrange(a as int, s@.len() as int)),
        decreases s@.len() - a,
    {
        assert(s@.subrange(a as int, s@.len() as int).drop_first() =~= s@.subrange(a + 1, s@.len() as int));
        a = a + 1;
    }
    let ghost u = s@.subrange(a as int, s@.len() as int);
    assert(trim_start(u) == u);
    if a == s.len() {
        return None;
    }
    let ghost pw = |i: int| is_white_space(u[i]);
    let mut e: usize = a;
    let mut tok: Vec<char> = Vec::new();
    while e < s.len() && !white_space(s[e])
        invariant
            u == s@.subrange(a as int, s@.len() as int),
            pw == (|i: int| is_white_space(u[i])),
            a <= e <= s@.len(),
            tok@ == u.subrange(0, e - a),
            forall|j: int| 0 <= j < e - a ==> !#[trigger] pw(j),
        decreases s@.len() - e,
    {
        tok.push(s[e]);
        assert(tok@ =~= u.subrange(0, e + 1 - a));
        e = e + 1;
    }
    proof {
        if e < s.len() {
            lemma_first_index_some(u.len(), pw, e - a);
        } else {
            lemma_first_index_none(u.len(), pw);
            assert(tok@ =~= u);
        }
    }
    Some(tok)
}

/// The checksum of a DAT `rom (...)` line (see `sha1_field`).
pub fn extract_sha1(line: &Vec<char>) -> (r: Option<Vec<char>>)
    ensures
        match sha1_field(line@) {
            Some(v) => r is Some && r->0@ == v,
            None => r is None,
        },
{
    let key = chars_of("sha1");
    proof {
        reveal_strlit("sha1");
    }
    let ghost p = |i: int| occurs_at(line@, "sha1"@, i);
    let idx = match find(line, &key) {
        Some(i) => i,
        None => {
            proof {
                assert forall|j: int| 0 <= j < line@.len() implies !#[trigger] p(j) by {
                    if p(j) {
                        assert(occurs_at(line@, key@, j));
                    }
                }
                lemma_first_index_none(line@.len(), p);
            }
            return None;
        },
    };
    proof {
        assert(key@.len() == 4);
        assert(idx + 4 <= line.len());
        lemma_first_index_some(line@.len(), p, idx as int);
    }
    let tok = match token_of(line, idx + 4) {
        Some(t) => t,
        None => return None,
    };
    let mut cleaned: Vec<char> = Vec::new();
    let mut i: usize = 0;
    while i < tok.len()
        invariant
            i <= tok@.len(),
            cleaned@ == hex_only(tok@.subrange(0, i as int)),
        decreases tok@.len() - i,
    {
        proof {
            assert(tok@.subrange(0, i + 1).drop_last() =~= tok@.subrange(0, i as int));
        }
        if hex_digit_char(tok[i]) {
            cleaned.push(tok[i]);
        }
        i = i + 1;
    }
    assert(tok@.subrange(0, tok@.len() as int) =~= tok@);
    if cleaned.len() == 40 {
        Some(lowercase_ascii(&cleaned))
    } else {
        None
    }
}

/// What a DAT scan has gathered: checksum to title, distinct titles in order
/// of first appearance, the title of the game block being read, and whether
/// a game block is open.
pub type DatScan = (Map<Seq<char>, Seq<char>>, Seq<Seq<char>>, Option<Seq<char>>, bool);

/// One line of a DAT file applied to the scan.
pub open spec fn dat_step(st: DatScan, line: Seq<char>) -> DatScan {
    let t = trimmed(line);
    if seq_starts_with(t, "game ("@) {
        (st.0, st.1, None, true)
    } else if st.3 && t == ")"@ {
        (st.0, st.1, None, false)
    } else if !st.3 {
        st
    } else if seq_starts_with(t, "name "@) {
        match quoted_value(t) {
            Some(n) => (st.0, st.1, Some(n), st.3),
            None => st,
        }
    } else if seq_starts_with(t, "description "@) && st.2 is None {
        match quoted_value(t) {
            Some(d) => (st.0, st.1, Some(d), st.3),
            None => st,
        }
    } else if seq_contains(t, "rom ("@) {
        match (sha1_field(t), st.2) {
            (Some(h), Some(title)) => (
                st.0.insert(h, title),
                if st.1.contains(title) {
                    st.1
                } else {
                    st.1.push(title)
                },
                st.2,
                st.3,
            ),
            _ => st,
        }
    } else {
        st
    }
}

/// The scan of a whole DAT file, line by line.
pub open spec fn dat_scan(lines: Seq<Seq<char>>) -> DatScan
    decreases lines.len(),
{
    if lines.len() == 0 {
        (Map::empty(), Seq::empty(), None, false)
    } else {
        dat_step(dat_scan(lines.drop_last()), lines.last())
    }
}

pub open spec fn map_lookup(m: Map<Seq<char>, Seq<char>>, k: Seq<char>) -> Option<Seq<char>> {
    if m.dom().contains(k) {
        Some(m[k])
    } else {
        None
    }
}

/// Records `title` for `key`, replacing an earlier record of the same key.
pub(crate) fn insert_entry(entries: &mut Vec<(String, String)>, key: String, title: String, Ghost(m): Ghost<Map<Seq<char>, Seq<char>>>)
    requires
        forall|k: Seq<char>| lookup(pairs_view(old(entries)@), k) == map_lookup(m, k),
    ensures
        forall|k: Seq<char>| lookup(pairs_view(final(entries)@), k) == map_lookup(m.insert(key@, title@), k),
{
    let ghost before = pairs_view(entries@);
    let mut i: usize = 0;
    while i < entries.len() && !crate::text::str_eq(entries[i].0.as_str(), key.as_str())
        invariant
            before == pairs_view(entries@),
            i <= entries@.len(),
            forall|j: int| 0 <= j < i ==> entries@[j].0@ != key@,
        decreases entries@.len() - i,
    {
        i = i + 1;
    }
    let ghost m2 = m.insert(key@, title@);
    if i < entries.len() {
        entries.set(i, (key, title));
        proof {
            let after = pairs_view(entries@);
            assert forall|k: Seq<char>| lookup(after, k) == map_lookup(m2, k) by {
                let p1 = |j: int| after[j].0 == k;
                let p0 = |j: int| before[j].0 == k;
                assert(lookup(before, k) == map_lookup(m, k));
                assert(after.len() == before.len());
                assert(after[i as int].0 == key@);
                assert(before[i as int].0 == key@);
                assert(forall|j: int| 0 <= j < after.len() && j != i ==> after[j] == before[j]);
                lemma_first_index_agree(after.len(), p1, p0);
                lemma_first_index_props(after.len(), p0);
                if k == key@ {
                    lemma_first_index_some(after.len(), p1, i as int);
                }
            }
        }
    } else {
        entries.push((key, title));
        proof {
            let after = pairs_view(entries@);
            assert forall|k: Seq<char>| lookup(after, k) == map_lookup(m2, k) by {
                let p1 = |j: int| after[j].0 == k;
                let p0 = |j: int| before[j].0 == k;
                assert(lookup(before, k) == map_lookup(m, k));
                assert(after.len() == before.len() + 1);
                assert(forall|j: int| 0 <= j < before.len() ==> after[j] == before[j]);
                assert(after[before.len() as int].0 == key@);
                lemma_first_index_agree(before.len(), p1, p0);
                lemma_first_index_props(before.len(), p0);
                if k == after[before.len() as int].0 {
                    lemma_first_index_none(before.len(), p0);
                    lemma_first_index_some(after.len(), p1, before.len() as int);
                }
            }
        }
    }
}

/// Whether `titles` already holds `title`.
pub(crate) fn has_title(titles: &Vec<String>, title: &String) -> (r: bool)
    ensures
        r == strings_view(titles@).contains(title@),
{
    let mut i: usize = 0;
    while i < titles.len()
        invariant
            i <= titles@.len(),
            forall|j: int| 0 <= j < i ==> titles@[j]@ != title@,
        decreases titles@.len() - i,
    {
        if titles[i] == *title {
            assert(strings_view(titles@)[i as int] == title@);
            return true;
        }
        i = i + 1;
    }
    false
}

/// Reads a title database from the lines of a DAT file: each `rom (...)`
/// line inside a `game (` ... `)` block maps its checksum to the block's
/// name (or, lacking one, its description).
pub fn parse_dat(lines: &Vec<String>) -> (r: RomDatabase)
    ensures
        r.spec_titles() == dat_scan(strings_view(lines@)).1,
        forall|k: Seq<char>| r.spec_title_for(k) == map_lookup(dat_scan(strings_view(lines@)).0, k),
{
    let ghost view = strings_view(lines@);
    let mut entries: Vec<(String, String)> = Vec::new();
    let mut titles: Vec<String> = Vec::new();
    let mut current_title: Option<String> = None;
    let mut in_game = false;
    let game_open = chars_of("game (");
    let close = chars_of(")");
    let name_key = chars_of("name ");
    let description_key = chars_of("description ");
    let rom_key = chars_of("rom (");
    let mut li: usize = 0;
    while li < lines.len()
        invariant
            view == strings_view(lines@),
            li <= lines@.len(),
            game_open@ == "game ("@,
            close@ == ")"@,
            name_key@ == "name "@,
            description_key@ == "description "@,
            rom_key@ == "rom ("@,
            forall|k: Seq<char>| lookup(pairs_view(entries@), k) == map_lookup(dat_scan(view.subrange(0, li as int)).0, k),
            strings_view(titles@) == dat_scan(view.subrange(0, li as int)).1,
            match current_title {
                Some(c) => dat_scan(view.subrange(0, li as int)).2 == Some(c@),
                None => dat_scan(view.subrange(0, li as int)).2 is None,
            },
            in_game == dat_scan(view.subrange(0, li as int)).3,
        decreases lines@.len() - li,
    {
        let ghost st = dat_scan(view.subrange(0, li as int));
        proof {
            assert(view.subrange(0, li + 1).drop_last() =~= view.subrange(0, li as int));
        }
        let cs = chars_of(lines[li].as_str());
        let t = trim(&cs);
        if starts_with(&t, &game_open) {
            in_game = true;
            current_title = None;
        } else if in_game && chars_eq(&t, &close) {
            in_game = false;
            current_title = None;
        } else if !in_game {
        } else if starts_with(&t, &name_key) {
            match extract_quoted_value(&t) {
                Some(n) => {
                    current_title = Some(string_from_chars(&n));
                },
                None => {},
            }
        } else if starts_with(&t, &description_key) && current_title.is_none() {
            match extract_quoted_value(&t) {
                Some(d) => {
                    current_title = Some(string_from_chars(&d));
                },
                None => {},
            }
        } else if contains(&t, &rom_key) {
            match extract_sha1(&t) {
                Some(h) => {
                    match &current_title {
                        Some(title) => {
                            let hs = string_from_chars(&h);
                            let known = has_title(&titles, title);
                            insert_entry(&mut entries, hs, title.clone(), Ghost(st.0));
                            if !known {
                                titles.push(title.clone());
                                assert(strings_view(titles@) =~= st.1.push(title@));
                            }
                        },
                        None => {},
                    }
                },
                None => {},
            }
        }
        li = li + 1;
    }
    assert(view.subrange(0, lines@.len() as int) =~= view);
    RomDatabase::from_parts(entries, titles)
}

} // verus!
