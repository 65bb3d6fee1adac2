//! ROM files on disk: recognising them by name, and the index of ROMs by
//! checksum.
use crate::romdb::{lookup, map_lookup, pairs_view};
use crate::search::{lemma_first_index_none, lemma_first_index_some};
use crate::text::{chars_of, chars_eq, lower_ascii_seq, lowercase_ascii, string_from_chars, owned};
use crate::types::System;
use vstd::prelude::*;

verus! {

/// `p` without trailing separators.
pub open spec fn strip_trailing_slashes(p: Seq<char>) -> Seq<char>
    decreases p.len(),
{
    if p.len() > 0 && p.last() == '/' {
        strip_trailing_slashes(p.drop_last())
    } else {
        p
    }
}

/// The index of the last `c` in `s`.
pub open spec fn last_index_of(s: Seq<char>, c: char) -> Option<int>
    decreases s.len(),
{
    if s.len() == 0 {
        None
    } else if s.last() == c {
        Some(s.len() - 1)
    } else {
        last_index_of(s.drop_last(), c)
    }
}

/// The last component of a path: what follows the final separator, once
/// trailing separators are dropped; none when that is empty, `.` or `..`.
pub open spec fn file_name_of(p: Seq<char>) -> Option<Seq<char>> {
    let q = strip_trailing_slashes(p);
    let name = match last_index_of(q, '/') {
        Some(i) => q.subrange(i + 1, q.len() as int),
        None => q,
    };
    if name.len() == 0 || name == "."@ || name == ".."@ {
        None
    } else {
        Some(name)
    }
}

/// The extension of a file name: what follows its last dot, unless that dot
/// starts the name or there is none.
pub open spec fn extension_of(name: Seq<char>) -> Option<Seq<char>> {
    match last_index_of(name, '.') {
        Some(d) => if d == 0 {
            None
        } else {
            Some(name.subrange(d + 1, name.len() as int))
        },
        None => None,
    }
}

/// A file name without its extension.
pub open spec fn stem_of(name: Seq<char>) -> Seq<char> {
    match last_index_of(name, '.') {
        Some(d) => if d == 0 {
            name
        } else {
            name.subrange(0, d)
        },
        None => name,
    }
}

pub open spec fn path_extension(p: Seq<char>) -> Option<Seq<char>> {
    match file_name_of(p) {
        Some(n) => extension_of(n),
        None => None,
    }
}

fn last_index(s: &Vec<char>, c: char) -> (r: Option<usize>)
    ensures
        match last_index_of(s@, c) {
            Some(i) => r is Some && r->0 == i && i < s.len(),
            None => r is None,
        },
{
    let mut i: usize = s.len();
    assert(s@.subrange(0, i as int) =~= s@);
    while i > 0
        invariant
            i <= s@.len(),
            last_index_of(s@, c) == last_index_of(s@.subrange(0, i as int), c),
        decreases i,
    {
        assert(s@.subrange(0, i as int).drop_last() =~= s@.subrange(0, i - 1));
        if s[i - 1] == c {
            return Some(i - 1);
        }
        i = i - 1;
    }
    None
}

fn slice_chars(s: &Vec<char>, a: usize, b: usize) -> (r: Vec<char>)
    requires
        a <= b <= s@.len(),
    ensures
        r@ == s@.subrange(a as int, b as int),
{
    let mut r: Vec<char> = Vec::new();
    let mut i = a;
    while i < b
        invariant
            a <= i <= b <= s@.len(),
            r@ == s@.subrange(a as int, i as int),
        decreases b - i,
    {
        r.push(s[i]);
        assert(r@ =~= s@.subrange(a as int, i + 1));
        i = i + 1;
    }
    r
}

/// The last component of a path (see `file_name_of`).
pub fn file_name(path: &str) -> (r: Option<Vec<char>>)
    ensures
        match file_name_of(path@) {
            Some(n) => r is Some && r->0@ == n,
            None => r is None,
        },
{
    let p = chars_of(path);
    let mut end = p.len();
    assert(p@.subrange(0, end as int) =~= p@);
    while end > 0 && p[end - 1] == '/'
        invariant
            end <= p@.len(),
            p@ == path@,
            strip_trailing_slashes(path@) == strip_trailing_slashes(p@.subrange(0, end as int)),
        decreases end,
    {
        assert(p@.subrange(0, end as int).drop_last() =~= p@.subrange(0, end - 1));
        end = end - 1;
    }
    assert(p@.subrange(0, p@.len() as int) =~= p@);
    let q = slice_chars(&p, 0, end);
    assert(strip_trailing_slashes(q@) == q@);
    let name = match last_index(&q, '/') {
        Some(i) => slice_chars(&q, i + 1, q.len()),
        None => q,
    };
    proof {
        reveal_strlit(".");
        reveal_strlit("..");
    }
    let dot = chars_of(".");
    let dotdot = chars_of("..");
    if name.len() == 0 || chars_eq(&name, &dot) || chars_eq(&name, &dotdot) {
        None
    } else {
        Some(name)
    }
}

/// The extension of a path's file name, if it has one.
pub fn extension(path: &str) -> (r: Option<Vec<char>>)
    ensures
        match path_extension(path@) {
            Some(e) => r is Some && r->0@ == e,
            None => r is None,
        },
{
    let name = match file_name(path) {
        Some(n) => n,
        None => return None,
    };
    match last_index(&name, '.') {
        Some(d) => if d == 0 {
            None
        } else {
            Some(slice_chars(&name, d + 1, name.len()))
        },
        None => None,
    }
}

/// Whether the (ASCII-lower-cased) extension of `path` is `ext`.
pub open spec fn has_extension(path: Seq<char>, ext: Seq<char>) -> bool {
    match path_extension(path) {
        Some(e) => lower_ascii_seq(e) == ext,
        None => false,
    }
}

/// Files whose extension, in any letter case, is `nes`, `sfc` or `smc` are
/// ROM images.
pub fn is_rom_file(path: &str) -> (r: bool)
    ensures
        r == (has_extension(path@, "nes"@) || has_extension(path@, "sfc"@) || has_extension(
            path@,
            "smc"@,
        )),
{
    match extension(path) {
        Some(e) => {
            let lower = lowercase_ascii(&e);
            chars_eq(&lower, &chars_of("nes")) || chars_eq(&lower, &chars_of("sfc")) || chars_eq(
                &lower,
                &chars_of("smc"),
            )
        },
        None => false,
    }
}

pub open spec fn system_for_path(path: Seq<char>) -> System {
    if has_extension(path, "gba"@) {
        System::Gba
    } else if has_extension(path, "gb"@) || has_extension(path, "gbc"@) {
        System::Gbc
    } else if has_extension(path, "sfc"@) || has_extension(path, "smc"@) {
        System::Snes
    } else {
        System::Nes
    }
}

/// The console a ROM is for, by its extension; NES when unknown.
pub fn system_from_rom_path(path: &str) -> (r: System)
    ensures
        r == system_for_path(path@),
{
    match extension(path) {
        Some(e) => {
            let lower = lowercase_ascii(&e);
            if chars_eq(&lower, &chars_of("gba")) {
                System::Gba
            } else if chars_eq(&lower, &chars_of("gb")) || chars_eq(&lower, &chars_of("gbc")) {
                System::Gbc
            } else if chars_eq(&lower, &chars_of("sfc")) || chars_eq(&lower, &chars_of("smc")) {
                System::Snes
            } else {
                System::Nes
            }
        },
        None => System::Nes,
    }
}

/// `s` with each `_` turned into a space.
pub open spec fn underscores_to_spaces(s: Seq<char>) -> Seq<char> {
    Seq::new(s.len(), |i: int| if s[i] == '_' { ' ' } else { s[i] })
}

pub open spec fn title_for_path(path: Seq<char>) -> Seq<char> {
    match file_name_of(path) {
        Some(n) => underscores_to_spaces(stem_of(n)),
        None => "Unknown ROM"@,
    }
}

pub(crate) fn stem(name: &Vec<char>) -> (r: Vec<char>)
    ensures
        r@ == stem_of(name@),
{
    match last_index(name, '.') {
        Some(d) => if d == 0 {
            slice_chars(name, 0, name.len())
        } else {
            slice_chars(name, 0, d)
        },
        None => slice_chars(name, 0, name.len()),
    }
}

/// A display title for a ROM file: its file stem with underscores as spaces.
pub fn title_from_rom_path(path: &str) -> (r: String)
    ensures
        r@ == title_for_path(path@),
{
    match file_name(path) {
        Some(n) => {
            let st = stem(&n);
            let mut out: Vec<char> = Vec::new();
            let mut i: usize = 0;
            while i < st.len()
                invariant
                    i <= st@.len(),
                    out@ == underscores_to_spaces(st@).subrange(0, i as int),
                decreases st@.len() - i,
            {
                out.push(if st[i] == '_' { ' ' } else { st[i] });
                assert(out@ =~= underscores_to_spaces(st@).subrange(0, i + 1));
                i = i + 1;
            }
            assert(out@ =~= underscores_to_spaces(st@));
            string_from_chars(&out)
        },
        None => owned("Unknown ROM"),
    }
}

/// Known ROM folders and the ROMs found in them, by checksum.
#[derive(Debug)]
pub struct RomLibrary {
    roots: Vec<String>,
    index: Vec<(String, String)>,
}

impl RomLibrary {
    pub closed spec fn spec_roots(&self) -> Seq<Seq<char>> {
        crate::romdb::strings_view(self.roots@)
    }

    /// The path recorded for a checksum.
    pub closed spec fn spec_path_for(&self, sha1: Seq<char>) -> Option<Seq<char>> {
        lookup(pairs_view(self.index@), sha1)
    }

    pub fn new() -> (r: RomLibrary)
        ensures
            r.spec_roots() == Seq::<Seq<char>>::empty(),
            forall|k: Seq<char>| r.spec_path_for(k) is None,
    {
        let r = RomLibrary { roots: Vec::new(), index: Vec::new() };
        assert(r.spec_roots() =~= Seq::<Seq<char>>::empty());
        r
    }

    /// Adds a folder to scan.
    pub fn add_root(&mut self, path: &str)
        ensures
            final(self).spec_roots() == old(self).spec_roots().push(path@),
            forall|k: Seq<char>| final(self).spec_path_for(k) == old(self).spec_path_for(k),
    {
        self.roots.push(owned(path));
        assert(self.spec_roots() =~= old(self).spec_roots().push(path@));
    }

    pub fn roots(&self) -> (r: &[String])
        ensures
            crate::romdb::strings_view(r@) == self.spec_roots(),
    {
        self.roots.as_slice()
    }

    /// Records a ROM found during a scan, replacing an earlier path for the
    /// same checksum.
    pub fn record(&mut self, sha1: String, path: String)
        ensures
            final(self).spec_roots() == old(self).spec_roots(),
            final(self).spec_path_for(sha1@) == Some(path@),
            forall|k: Seq<char>| k != sha1@ ==> final(self).spec_path_for(k) == old(self).spec_path_for(k),
    {
        let ghost m = Map::new(
            |k: Seq<char>| lookup(pairs_view(self.index@), k) is Some,
            |k: Seq<char>| lookup(pairs_view(self.index@), k)->0,
        );
        let ghost key = sha1@;
        let ghost val = path@;
        assert forall|k: Seq<char>| lookup(pairs_view(self.index@), k) == map_lookup(m, k) by {
        }
        crate::romdb::insert_entry(&mut self.index, sha1, path, Ghost(m));
        assert forall|k: Seq<char>| k != key implies #[trigger] self.spec_path_for(k) == old(self).spec_path_for(k) by {
            assert(map_lookup(m.insert(key, val), k) == map_lookup(m, k));
        }
        assert(map_lookup(m.insert(key, val), key) == Some(val));
    }

    /// The path of the ROM with this checksum, if one was found.
    pub fn find_by_hash(&self, sha1: &str) -> (r: Option<String>)
        ensures
            match self.spec_path_for(sha1@) {
                Some(p) => r is Some && r->0@ == p,
                None => r is None,
            },
    {
        let ghost entries = pairs_view(self.index@);
        let ghost p = |i: int| entries[i].0 == sha1@;
        let mut i: usize = 0;
        while i < self.index.len()
            invariant
                i <= self.index@.len(),
                entries == pairs_view(self.index@),
                p == (|i: int| entries[i].0 == sha1@),
                forall|j: int| 0 <= j < i ==> !#[trigger] p(j),
            decreases self.index@.len() - i,
        {
            if crate::text::str_eq(self.index[i].0.as_str(), sha1) {
                proof {
                    lemma_first_index_some(entries.len(), p, i as int);
                }
                return Some(self.index[i].1.clone());
            }
            i = i + 1;
        }
        proof {
            lemma_first_index_none(entries.len(), p);
        }
        None
    }
}

} // verus!
