//! Choosing and locating emulation cores.
use crate::library::{file_name, file_name_of, stem_of};
use crate::search::{first_index, lemma_first_index_none, lemma_first_index_some};
use crate::text::{
    chars_eq, chars_of, contains, find, lower_ascii_seq, lowercase_ascii, occurs_at, owned,
    path_join, push_str, seq_contains, string_from_chars, join_path,
};
use crate::types::{ByteMetadata, System};
use vstd::prelude::*;
use vstd::utf8::encode_utf8;

verus! {

/// The core id a library file names: what precedes `_libretro.` in its file
/// name when that is not empty, else its file stem.
pub open spec fn core_id_of_path(path: Seq<char>) -> Option<Seq<char>> {
    match file_name_of(path) {
        None => None,
        Some(n) => match first_index(n.len(), |i: int| occurs_at(n, "_libretro."@, i)) {
            Some(i) => if i > 0 {
                Some(n.subrange(0, i))
            } else {
                Some(stem_of(n))
            },
            None => Some(stem_of(n)),
        },
    }
}

/// The core id a library file names (see `core_id_of_path`).
pub fn core_id_from_path(path: &str) -> (r: Option<String>)
    ensures
        match core_id_of_path(path@) {
            Some(id) => r is Some && r->0@ == id,
            None => r is None,
        },
{
    let name = match file_name(path) {
        Some(n) => n,
        None => return None,
    };
    let marker = chars_of("_libretro.");
    proof {
        reveal_strlit("_libretro.");
    }
    let ghost p = |i: int| occurs_at(name@, "_libretro."@, i);
    match find(&name, &marker) {
        Some(i) => {
            proof {
                lemma_first_index_some(name@.len(), p, i as int);
            }
            if i > 0 {
                let mut id: Vec<char> = Vec::new();
                let mut k: usize = 0;
                while k < i
                    invariant
                        k <= i,
                        i <= name@.len(),
                        id@ == name@.subrange(0, k as int),
                    decreases i - k,
                {
                    id.push(name[k]);
                    assert(id@ =~= name@.subrange(0, k + 1));
                    k = k + 1;
                }
                return Some(string_from_chars(&id));
            }
        },
        None => {
            proof {
                assert forall|j: int| 0 <= j < name@.len() implies !#[trigger] p(j) by {
                    if p(j) {
                        assert(occurs_at(name@, marker@, j));
                    }
                }
                lemma_first_index_none(name@.len(), p);
            }
        },
    }
    Some(string_from_chars(&crate::library::stem(&name)))
}

/// The core a file in the cores folder provides: its id, when the file's
/// extension is the platform's library extension in any ASCII case.
pub open spec fn library_core_id_of(path: Seq<char>, ext: Seq<char>) -> Option<Seq<char>> {
    match crate::library::path_extension(path) {
        Some(e) => if lower_ascii_seq(e) == lower_ascii_seq(ext) {
            core_id_of_path(path)
        } else {
            None
        },
        None => None,
    }
}

pub fn library_core_id(path: &str, ext: &str) -> (r: Option<String>)
    ensures
        match library_core_id_of(path@, ext@) {
            Some(id) => r is Some && r->0@ == id,
            None => r is None,
        },
{
    match crate::library::extension(path) {
        Some(e) => {
            if chars_eq(&lowercase_ascii(&e), &lowercase_ascii(&chars_of(ext))) {
                core_id_from_path(path)
            } else {
                None
            }
        },
        None => None,
    }
}

/// A core id matches a preferred name when they are equal ignoring ASCII
/// case, or, for names of at least four bytes, when it contains the name
/// ignoring ASCII case (so that "nes" does not match "bsnes").
pub open spec fn matches_preference(core_id: Seq<char>, needle: Seq<char>) -> bool {
    let core = lower_ascii_seq(core_id);
    let n = lower_ascii_seq(needle);
    core == n || (encode_utf8(n).len() >= 4 && seq_contains(core, n))
}

pub fn core_id_matches_preference(core_id: &str, needle: &str) -> (r: bool)
    ensures
        r == matches_preference(core_id@, needle@),
{
    let core = lowercase_ascii(&chars_of(core_id));
    let n = lowercase_ascii(&chars_of(needle));
    if chars_eq(&core, &n) {
        return true;
    }
    let n_string = string_from_chars(&n);
    let n_bytes = n_string.as_str().as_bytes();
    if n_bytes.len() < 4 {
        return false;
    }
    contains(&core, &n)
}

/// How many of the first `len` bytes are for `system`, name `core`, and have
/// a core that can be found.
pub open spec fn core_count(bytes: Seq<ByteMetadata>, found: Seq<bool>, system: System, core: Seq<char>, len: nat) -> nat
    decreases len,
{
    if len == 0 {
        0
    } else {
        core_count(bytes, found, system, core, (len - 1) as nat) + if counted(bytes, found, system, len - 1)
            && bytes[len - 1].core_id@ == core {
            1nat
        } else {
            0nat
        }
    }
}

/// Byte `i` votes for its core: it is for `system` and its core was found.
pub open spec fn counted(bytes: Seq<ByteMetadata>, found: Seq<bool>, system: System, i: int) -> bool {
    bytes[i].system == system && found[i]
}

pub open spec fn preferred_count(system: System) -> nat {
    match system {
        System::Snes => 3,
        _ => 4,
    }
}

/// The `k`-th preferred core name for a console, best first.
pub open spec fn preferred_name(system: System, k: int) -> Seq<char> {
    match system {
        System::Nes => if k == 0 {
            "mesen"@
        } else if k == 1 {
            "nestopia"@
        } else if k == 2 {
            "fceux"@
        } else {
            "nes"@
        },
        System::Snes => if k == 0 {
            "bsnes"@
        } else if k == 1 {
            "snes9x"@
        } else {
            "snes"@
        },
        System::Gbc => if k == 0 {
            "gambatte"@
        } else if k == 1 {
            "sameboy"@
        } else if k == 2 {
            "gearboy"@
        } else {
            "gb"@
        },
        System::Gba => if k == 0 {
            "mgba"@
        } else if k == 1 {
            "gpsp"@
        } else if k == 2 {
            "vba"@
        } else {
            "gba"@
        },
    }
}

fn preferred(system: System, k: usize) -> (r: &'static str)
    requires
        k < preferred_count(system),
    ensures
        r@ == preferred_name(system, k as int),
{
    match system {
        System::Nes => if k == 0 {
            "mesen"
        } else if k == 1 {
            "nestopia"
        } else if k == 2 {
            "fceux"
        } else {
            "nes"
        },
        System::Snes => if k == 0 {
            "bsnes"
        } else if k == 1 {
            "snes9x"
        } else {
            "snes"
        },
        System::Gbc => if k == 0 {
            "gambatte"
        } else if k == 1 {
            "sameboy"
        } else if k == 2 {
            "gearboy"
        } else {
            "gb"
        },
        System::Gba => if k == 0 {
            "mgba"
        } else if k == 1 {
            "gpsp"
        } else if k == 2 {
            "vba"
        } else {
            "gba"
        },
    }
}

/// Without votes: the first available core matching the best preferred name
/// that any available core matches, trying names from `k` on.
pub open spec fn fallback_core(system: System, available: Seq<Seq<char>>, k: nat) -> Option<Seq<char>>
    decreases preferred_count(system) - k,
{
    if k >= preferred_count(system) {
        None
    } else {
        match first_index(available.len(), |i: int| matches_preference(available[i], preferred_name(system, k as int))) {
            Some(i) => Some(available[i]),
            None => fallback_core(system, available, k + 1),
        }
    }
}

fn count_votes(bytes: &[ByteMetadata], found: &[bool], system: System, core: &str) -> (r: usize)
    requires
        found@.len() == bytes@.len(),
    ensures
        r == core_count(bytes@, found@, system, core@, bytes@.len()),
{
    let mut n: usize = 0;
    let mut i: usize = 0;
    while i < bytes.len()
        invariant
            found@.len() == bytes@.len(),
            i <= bytes@.len(),
            n == core_count(bytes@, found@, system, core@, i as nat),
            n <= i,
        decreases bytes@.len() - i,
    {
        if bytes[i].system == system && found[i] && crate::text::str_eq(bytes[i].core_id.as_str(), core) {
            n = n + 1;
        }
        i = i + 1;
    }
    n
}

/// The default core for a console. Bytes already saved vote for their core
/// (when it is for this console and `found` says its library is present):
/// the result then has the most votes, ties going to the core voted for
/// first. Without votes the preferred names are tried in order against the
/// available cores.
pub fn select_default_core(system: System, available_cores: &[String], bytes: &[ByteMetadata], found: &[bool]) -> (r: Option<String>)
    requires
        found@.len() == bytes@.len(),
    ensures
        (exists|i: int| 0 <= i < bytes@.len() && counted(bytes@, found@, system, i)) ==> {
            &&& r is Some
            &&& exists|i: int|
                0 <= i < bytes@.len() && counted(bytes@, found@, system, i) && bytes@[i].core_id@ == r->0@
            &&& forall|i: int|
                0 <= i < bytes@.len() && counted(bytes@, found@, system, i) ==> core_count(
                    bytes@,
                    found@,
                    system,
                    #[trigger] bytes@[i].core_id@,
                    bytes@.len(),
                ) <= core_count(bytes@, found@, system, r->0@, bytes@.len())
        },
        !(exists|i: int| 0 <= i < bytes@.len() && counted(bytes@, found@, system, i)) ==> match fallback_core(
            system,
            crate::romdb::strings_view(available_cores@),
            0,
        ) {
            Some(c) => r is Some && r->0@ == c,
            None => r is None,
        },
{
    let mut best: Option<usize> = None;
    let mut best_count: usize = 0;
    let mut i: usize = 0;
    while i < bytes.len()
        invariant
            found@.len() == bytes@.len(),
            i <= bytes@.len(),
            best is None <==> (forall|j: int| 0 <= j < i ==> !counted(bytes@, found@, system, j)),
            best matches Some(b) ==> b < i && counted(bytes@, found@, system, b as int)
                && best_count == core_count(bytes@, found@, system, bytes@[b as int].core_id@, bytes@.len()),
            forall|j: int|
                0 <= j < i && counted(bytes@, found@, system, j) ==> core_count(
                    bytes@,
                    found@,
                    system,
                    #[trigger] bytes@[j].core_id@,
                    bytes@.len(),
                ) <= best_count,
        decreases bytes@.len() - i,
    {
        let counts = bytes[i].system == system && found[i];
        assert(counts == counted(bytes@, found@, system, i as int));
        if counts {
            let c = count_votes(bytes, found, system, bytes[i].core_id.as_str());
            if best.is_none() || c > best_count {
                best = Some(i);
                best_count = c;
            }
        }
        i = i + 1;
    }
    match best {
        Some(b) => {
            return Some(bytes[b].core_id.clone());
        },
        None => {},
    }
    let ghost avail = crate::romdb::strings_view(available_cores@);
    let count: usize = match system {
        System::Snes => 3,
        _ => 4,
    };
    let mut k: usize = 0;
    while k < count
        invariant
            count == preferred_count(system),
            k <= count,
            avail == crate::romdb::strings_view(available_cores@),
            fallback_core(system, avail, 0) == fallback_core(system, avail, k as nat),
            forall|t: int| 0 <= t < bytes@.len() ==> !counted(bytes@, found@, system, t),
        decreases count - k,
    {
        let needle = preferred(system, k);
        let ghost p = |i: int| matches_preference(avail[i], preferred_name(system, k as int));
        let mut j: usize = 0;
        while j < available_cores.len()
            invariant
                j <= available_cores@.len(),
                avail == crate::romdb::strings_view(available_cores@),
                needle@ == preferred_name(system, k as int),
                p == (|i: int| matches_preference(avail[i], preferred_name(system, k as int))),
                forall|t: int| 0 <= t < j ==> !#[trigger] p(t),
                fallback_core(system, avail, 0) == fallback_core(system, avail, k as nat),
                k < count,
                count == preferred_count(system),
                forall|t: int| 0 <= t < bytes@.len() ==> !counted(bytes@, found@, system, t),
            decreases available_cores@.len() - j,
        {
            if core_id_matches_preference(available_cores[j].as_str(), needle) {
                proof {
                    lemma_first_index_some(avail.len(), p, j as int);
                }
                return Some(available_cores[j].clone());
            }
            j = j + 1;
        }
        proof {
            lemma_first_index_none(avail.len(), p);
        }
        k = k + 1;
    }
    None
}

pub open spec fn core_candidates_of(core_id: Seq<char>, ext: Seq<char>) -> Seq<Seq<char>> {
    seq![core_id, core_id + "_libretro."@ + ext, core_id + "."@ + ext]
}

/// The file names under which a core may be installed, in the order they
/// are tried: the id itself, `<id>_libretro.<ext>`, then `<id>.<ext>`.
pub fn core_file_candidates(core_id: &str, ext: &str) -> (r: Vec<String>)
    ensures
        crate::romdb::strings_view(r@) == core_candidates_of(core_id@, ext@),
{
    let direct = owned(core_id);
    let mut libretro = owned(core_id);
    push_str(&mut libretro, "_libretro.");
    push_str(&mut libretro, ext);
    let mut by_ext = owned(core_id);
    push_str(&mut by_ext, ".");
    push_str(&mut by_ext, ext);
    let r = vec![direct, libretro, by_ext];
    assert(crate::romdb::strings_view(r@) =~= core_candidates_of(core_id@, ext@));
    r
}

/// The paths, under the cores folder, where a core may be installed, in the
/// order they are tried.
pub fn core_path_candidates(root: &str, core_id: &str, ext: &str) -> (r: Vec<String>)
    ensures
        r@.len() == 3,
        forall|i: int| 0 <= i < 3 ==> #[trigger] r@[i]@ == path_join(root@, core_candidates_of(core_id@, ext@)[i]),
{
    let names = core_file_candidates(core_id, ext);
    assert(core_candidates_of(core_id@, ext@).len() == 3);
    assert(names@.len() == 3);
    let mut out: Vec<String> = Vec::new();
    let mut i: usize = 0;
    while i < names.len()
        invariant
            crate::romdb::strings_view(names@) == core_candidates_of(core_id@, ext@),
            i <= names@.len(),
            out@.len() == i,
            forall|j: int| 0 <= j < i ==> #[trigger] out@[j]@ == path_join(root@, core_candidates_of(core_id@, ext@)[j]),
        decreases names@.len() - i,
    {
        assert(names@[i as int]@ == core_candidates_of(core_id@, ext@)[i as int]);
        out.push(join_path(root, names[i].as_str()));
        i = i + 1;
    }
    out
}

} // verus!
