//! The feed of playable items and the position in it.
use crate::library::{system_for_path, system_from_rom_path, title_for_path, title_from_rom_path};
use crate::romdb::{has_title, strings_view};
use crate::types::{ByteMetadata, System};
use vstd::prelude::*;

verus! {

/// A ROM offered without a saved moment, started from power-on.
#[derive(Debug, Clone)]
pub struct RomFallback {
    pub rom_sha1: String,
    pub rom_path: String,
    pub system: System,
    pub title: String,
    pub official_title: Option<String>,
    pub core_id: String,
    pub core_path: Option<String>,
}

/// One entry of the feed.
#[derive(Debug, Clone)]
pub enum FeedItem {
    Byte(ByteMetadata),
    RomFallback(RomFallback),
}

/// The key under which a session's autosave is kept.
#[derive(Debug, Clone, PartialEq, Eq, Hash)]
pub enum SessionAutosaveKey {
    Byte(String),
    Rom(String),
}

pub open spec fn item_system(item: FeedItem) -> System {
    match item {
        FeedItem::Byte(b) => b.system,
        FeedItem::RomFallback(f) => f.system,
    }
}

/// The ROM an item plays.
pub open spec fn item_rom(item: FeedItem) -> Seq<char> {
    match item {
        FeedItem::Byte(b) => b.rom_sha1@,
        FeedItem::RomFallback(f) => f.rom_sha1@,
    }
}

pub open spec fn item_title(item: FeedItem) -> Seq<char> {
    match item {
        FeedItem::Byte(b) => if b.title@.len() == 0 {
            b.byte_id@
        } else {
            b.title@
        },
        FeedItem::RomFallback(f) => f.title@,
    }
}

impl FeedItem {
    pub fn system(&self) -> (r: System)
        ensures
            r == item_system(*self),
    {
        match self {
            FeedItem::Byte(b) => b.system,
            FeedItem::RomFallback(f) => f.system,
        }
    }

    /// The title shown: a byte without a title shows its id.
    pub fn title(&self) -> (r: &str)
        ensures
            r@ == item_title(*self),
    {
        match self {
            FeedItem::Byte(b) => if b.title.as_str().is_empty() {
                b.byte_id.as_str()
            } else {
                b.title.as_str()
            },
            FeedItem::RomFallback(f) => f.title.as_str(),
        }
    }

    /// Bytes are keyed by id, fallback ROMs by checksum.
    pub fn session_autosave_key(&self) -> (r: SessionAutosaveKey)
        ensures
            match (*self, r) {
                (FeedItem::Byte(b), SessionAutosaveKey::Byte(k)) => k@ == b.byte_id@,
                (FeedItem::RomFallback(f), SessionAutosaveKey::Rom(k)) => k@ == f.rom_sha1@,
                _ => false,
            },
    {
        match self {
            FeedItem::Byte(b) => SessionAutosaveKey::Byte(b.byte_id.clone()),
            FeedItem::RomFallback(f) => SessionAutosaveKey::Rom(f.rom_sha1.clone()),
        }
    }
}

pub open spec fn is_fallback_for(item: FeedItem, rom_sha1: Seq<char>) -> bool {
    match item {
        FeedItem::RomFallback(f) => f.rom_sha1@ == rom_sha1,
        _ => false,
    }
}

/// `items` without the fallback entries of one ROM, order kept.
pub open spec fn without_fallback(items: Seq<FeedItem>, rom_sha1: Seq<char>) -> Seq<FeedItem>
    decreases items.len(),
{
    if items.len() == 0 {
        Seq::empty()
    } else if is_fallback_for(items.last(), rom_sha1) {
        without_fallback(items.drop_last(), rom_sha1)
    } else {
        without_fallback(items.drop_last(), rom_sha1).push(items.last())
    }
}

/// The id of item `i` when it is a byte, as a sequence of zero or one ids.
pub open spec fn byte_id_at(items: Seq<FeedItem>, i: int) -> Seq<Seq<char>> {
    if 0 <= i < items.len() {
        match items[i] {
            FeedItem::Byte(b) => seq![b.byte_id@],
            _ => Seq::empty(),
        }
    } else {
        Seq::empty()
    }
}

/// The items of the feed and which one is selected.
#[derive(Debug)]
pub struct FeedController {
    items: Vec<FeedItem>,
    current_index: usize,
}

impl FeedController {
    pub closed spec fn spec_items(&self) -> Seq<FeedItem> {
        self.items@
    }

    pub closed spec fn spec_current(&self) -> nat {
        self.current_index as nat
    }

    pub fn new(items: Vec<FeedItem>) -> (r: FeedController)
        ensures
            r.spec_items() == items@,
            r.spec_current() == 0,
    {
        FeedController { items, current_index: 0 }
    }

    pub fn items(&self) -> (r: &[FeedItem])
        ensures
            r@ == self.spec_items(),
    {
        self.items.as_slice()
    }

    pub fn current_index(&self) -> (r: usize)
        ensures
            r == self.spec_current(),
    {
        self.current_index
    }

    pub fn is_empty(&self) -> (r: bool)
        ensures
            r == (self.spec_items().len() == 0),
    {
        self.items.len() == 0
    }

    /// The selected item, if the selection is inside the feed.
    pub fn current(&self) -> (r: Option<&FeedItem>)
        ensures
            self.spec_current() < self.spec_items().len() ==> r == Some(&self.spec_items()[self.spec_current() as int]),
            self.spec_current() >= self.spec_items().len() ==> r is None,
    {
        if self.current_index < self.items.len() {
            Some(&self.items[self.current_index])
        } else {
            None
        }
    }

    /// Selects `index` when it is inside the feed.
    pub fn select(&mut self, index: usize)
        ensures
            final(self).spec_items() == old(self).spec_items(),
            final(self).spec_current() == if index < old(self).spec_items().len() {
                index as nat
            } else {
                old(self).spec_current()
            },
    {
        if index < self.items.len() {
            self.current_index = index;
        }
    }

    /// Moves to the next item, stopping at the last.
    pub fn next(&mut self)
        ensures
            final(self).spec_items() == old(self).spec_items(),
            old(self).spec_items().len() == 0 ==> final(self).spec_current() == old(self).spec_current(),
            old(self).spec_items().len() > 0 ==> final(self).spec_current() == if old(self).spec_current() + 1
                < old(self).spec_items().len() {
                old(self).spec_current() + 1
            } else {
                (old(self).spec_items().len() - 1) as nat
            },
    {
        if self.items.len() == 0 {
            return ;
        }
        let last = self.items.len() - 1;
        if self.current_index < last {
            self.current_index = self.current_index + 1;
        } else {
            self.current_index = last;
        }
    }

    /// Moves to the previous item, stopping at the first.
    pub fn prev(&mut self)
        ensures
            final(self).spec_items() == old(self).spec_items(),
            old(self).spec_items().len() > 0 && old(self).spec_current() > 0 ==> final(self).spec_current() == old(self).spec_current() - 1,
            old(self).spec_items().len() == 0 || old(self).spec_current() == 0 ==> final(self).spec_current() == old(self).spec_current(),
    {
        if self.items.len() == 0 {
            return ;
        }
        if self.current_index > 0 {
            self.current_index = self.current_index - 1;
        }
    }

    /// The ids of the bytes worth reading ahead: the selected one and its
    /// neighbours, in that order, skipping fallback ROMs.
    pub fn prefetch_ids(&self) -> (r: Vec<String>)
        ensures
            crate::romdb::strings_view(r@) == if self.spec_items().len() == 0 {
                Seq::empty()
            } else {
                byte_id_at(self.spec_items(), self.spec_current() as int) + (if self.spec_current() > 0 {
                    byte_id_at(self.spec_items(), self.spec_current() - 1)
                } else {
                    Seq::empty()
                }) + byte_id_at(self.spec_items(), self.spec_current() + 1int)
            },
    {
        let mut ids: Vec<String> = Vec::new();
        if self.items.len() == 0 {
            assert(crate::romdb::strings_view(ids@) =~= Seq::<Seq<char>>::empty());
            return ids;
        }
        let ghost items = self.items@;
        let ghost c0 = self.current_index as int;
        let c = self.current_index;
        if c < self.items.len() {
            match &self.items[c] {
                FeedItem::Byte(b) => ids.push(b.byte_id.clone()),
                _ => {},
            }
        }
        assert(crate::romdb::strings_view(ids@) =~= byte_id_at(items, c0));
        if c > 0 && c - 1 < self.items.len() {
            match &self.items[c - 1] {
                FeedItem::Byte(b) => ids.push(b.byte_id.clone()),
                _ => {},
            }
        }
        let ghost part = byte_id_at(items, c0) + (if c0 > 0 {
            byte_id_at(items, c0 - 1)
        } else {
            Seq::empty()
        });
        assert(crate::romdb::strings_view(ids@) =~= part);
        if c < self.items.len() - 1 {
            match &self.items[c + 1] {
                FeedItem::Byte(b) => ids.push(b.byte_id.clone()),
                _ => {},
            }
        }
        assert(crate::romdb::strings_view(ids@) =~= part + byte_id_at(items, c0 + 1));
        ids
    }

    /// Whether some item already plays this ROM.
    pub fn covers_rom(&self, rom_sha1: &str) -> (r: bool)
        ensures
            r == exists|i: int| 0 <= i < self.spec_items().len() && item_rom(#[trigger] self.spec_items()[i]) == rom_sha1@,
    {
        let mut i: usize = 0;
        while i < self.items.len()
            invariant
                i <= self.items@.len(),
                forall|j: int| 0 <= j < i ==> item_rom(#[trigger] self.items@[j]) != rom_sha1@,
            decreases self.items@.len() - i,
        {
            let sha = match &self.items[i] {
                FeedItem::Byte(b) => b.rom_sha1.as_str(),
                FeedItem::RomFallback(f) => f.rom_sha1.as_str(),
            };
            if crate::text::str_eq(sha, rom_sha1) {
                assert(item_rom(self.spec_items()[i as int]) == rom_sha1@);
                return true;
            }
            i = i + 1;
        }
        false
    }

    /// Adds a new byte at the end and selects it; a fallback entry for the
    /// same ROM leaves the feed.
    pub fn add_byte(&mut self, metadata: ByteMetadata)
        ensures
            final(self).spec_items() == without_fallback(old(self).spec_items(), metadata.rom_sha1@).push(FeedItem::Byte(metadata)),
            final(self).spec_current() == final(self).spec_items().len() - 1,
    {
        let mut kept: Vec<FeedItem> = Vec::new();
        let mut rest: Vec<FeedItem> = Vec::new();
        std::mem::swap(&mut rest, &mut self.items);
        let ghost items = rest@;
        let ghost sha = metadata.rom_sha1@;
        let ghost mut i: int = 0;
        while rest.len() > 0
            invariant
                sha == metadata.rom_sha1@,
                items == old(self).spec_items(),
                0 <= i <= items.len(),
                rest@ == items.subrange(i, items.len() as int),
                kept@ == without_fallback(items.subrange(0, i), sha),
            decreases rest@.len(),
        {
            assert(items.subrange(0, i + 1).drop_last() =~= items.subrange(0, i));
            let item = rest.remove(0);
            let drop = match &item {
                FeedItem::RomFallback(f) => crate::text::str_eq(f.rom_sha1.as_str(), metadata.rom_sha1.as_str()),
                _ => false,
            };
            if !drop {
                kept.push(item);
            }
            proof {
                i = i + 1;
            }
            assert(rest@ =~= items.subrange(i, items.len() as int));
        }
        assert(items.subrange(0, items.len() as int) =~= items);
        kept.push(FeedItem::Byte(metadata));
        self.items = kept;
        self.current_index = self.items.len() - 1;
    }

    /// Appends a fallback ROM; the first item of an empty feed is selected.
    pub fn push_fallback(&mut self, fallback: RomFallback)
        ensures
            final(self).spec_items() == old(self).spec_items().push(FeedItem::RomFallback(fallback)),
            old(self).spec_items().len() == 0 ==> final(self).spec_current() == 0,
            old(self).spec_items().len() > 0 ==> final(self).spec_current() == old(self).spec_current(),
    {
        self.items.push(FeedItem::RomFallback(fallback));
        if self.items.len() == 1 {
            self.current_index = 0;
        }
    }
}

/// A ROM found on disk, with what the caller looked up about it: the title
/// the user gave it, if any, and its official title, if one resolved.
#[derive(Debug, Clone)]
pub struct RomEntry {
    pub rom_sha1: String,
    pub rom_path: String,
    pub title: Option<String>,
    pub official_title: Option<String>,
}

/// The default core of each console, where one was chosen.
#[derive(Debug, Clone)]
pub struct SystemCores {
    pub nes: Option<String>,
    pub snes: Option<String>,
    pub gbc: Option<String>,
    pub gba: Option<String>,
}

pub open spec fn core_for(cores: SystemCores, system: System) -> Option<String> {
    match system {
        System::Nes => cores.nes,
        System::Snes => cores.snes,
        System::Gbc => cores.gbc,
        System::Gba => cores.gba,
    }
}

fn core_of(cores: &SystemCores, system: System) -> (r: Option<String>)
    ensures
        match core_for(*cores, system) {
            Some(c) => r is Some && r->0@ == c@,
            None => r is None,
        },
{
    let c = match system {
        System::Nes => &cores.nes,
        System::Snes => &cores.snes,
        System::Gbc => &cores.gbc,
        System::Gba => &cores.gba,
    };
    match c {
        Some(s) => Some(s.clone()),
        None => None,
    }
}

/// The checksums already covered: those of the bytes, then of the ROMs
/// chosen so far.
pub open spec fn covered_roms(byte_shas: Seq<Seq<char>>, roms: Seq<RomEntry>, chosen: Seq<int>) -> Seq<Seq<char>> {
    byte_shas + chosen.map_values(|j: int| roms[j].rom_sha1@)
}

/// Which of the first `n` ROMs become fallback items, in order: those whose
/// checksum no byte and no earlier chosen ROM covers, and whose console has
/// a default core.
pub open spec fn chosen_roms(byte_shas: Seq<Seq<char>>, roms: Seq<RomEntry>, cores: SystemCores, n: nat) -> Seq<int>
    decreases n,
{
    if n == 0 {
        Seq::empty()
    } else {
        let prev = chosen_roms(byte_shas, roms, cores, (n - 1) as nat);
        let e = roms[n - 1];
        if covered_roms(byte_shas, roms, prev).contains(e.rom_sha1@) || core_for(
            cores,
            system_for_path(e.rom_path@),
        ) is None {
            prev
        } else {
            prev.push(n - 1)
        }
    }
}

/// The fallback item made of ROM entry `e`.
pub open spec fn fallback_made_of(f: RomFallback, e: RomEntry, cores: SystemCores) -> bool {
    let system = system_for_path(e.rom_path@);
    &&& f.rom_sha1@ == e.rom_sha1@
    &&& f.rom_path@ == e.rom_path@
    &&& f.system == system
    &&& f.title@ == match e.title {
        Some(t) => t@,
        None => title_for_path(e.rom_path@),
    }
    &&& match (f.official_title, e.official_title) {
        (Some(a), Some(b)) => a@ == b@,
        (None, None) => true,
        _ => false,
    }
    &&& core_for(cores, system) is Some && f.core_id@ == core_for(cores, system)->0@
    &&& f.core_path is None
}

/// The feed: every byte in order, then a fallback item for each ROM (in the
/// given order) that no byte or earlier ROM covers and whose console has a
/// default core.
pub fn build_feed_items(bytes: Vec<ByteMetadata>, roms: &[RomEntry], cores: &SystemCores) -> (r: Vec<FeedItem>)
    ensures
        ({
            let byte_shas = Seq::new(bytes@.len(), |i: int| bytes@[i].rom_sha1@);
            let chosen = chosen_roms(byte_shas, roms@, *cores, roms@.len());
            &&& r@.len() == bytes@.len() + chosen.len()
            &&& forall|i: int| 0 <= i < bytes@.len() ==> #[trigger] r@[i] == FeedItem::Byte(bytes@[i])
            &&& forall|k: int|
                0 <= k < chosen.len() ==> (#[trigger] r@[bytes@.len() + k] matches FeedItem::RomFallback(f)
                    && fallback_made_of(f, roms@[chosen[k]], *cores))
        }),
{
    let ghost byte_shas = Seq::new(bytes@.len(), |i: int| bytes@[i].rom_sha1@);
    let ghost original = bytes@;
    let mut covered: Vec<String> = Vec::new();
    let mut i: usize = 0;
    while i < bytes.len()
        invariant
            i <= bytes@.len(),
            bytes@ == original,
            byte_shas == Seq::new(bytes@.len(), |i: int| bytes@[i].rom_sha1@),
            strings_view(covered@) == byte_shas.subrange(0, i as int),
        decreases bytes@.len() - i,
    {
        let ghost before = covered@;
        assert(strings_view(before).len() == before.len());
        assert(before.len() == i);
        covered.push(bytes[i].rom_sha1.clone());
        assert(covered@ == before.push(bytes@[i as int].rom_sha1));
        assert(i < bytes@.len());
        assert(byte_shas.len() == bytes@.len());
        assert(byte_shas[i as int] == bytes@[i as int].rom_sha1@);
        assert(covered@[i as int]@ == byte_shas[i as int]);
        assert(strings_view(covered@) =~= byte_shas.subrange(0, i + 1));
        i = i + 1;
    }
    assert(byte_shas.subrange(0, bytes@.len() as int) =~= byte_shas);
    let mut items: Vec<FeedItem> = Vec::new();
    let mut rest = bytes;
    while rest.len() > 0
        invariant
            items@.len() + rest@.len() == original.len(),
            rest@ == original.subrange(items@.len() as int, original.len() as int),
            forall|j: int| 0 <= j < items@.len() ==> #[trigger] items@[j] == FeedItem::Byte(original[j]),
        decreases rest@.len(),
    {
        let b = rest.remove(0);
        items.push(FeedItem::Byte(b));
        assert(rest@ =~= original.subrange(items@.len() as int, original.len() as int));
    }
    let nb = items.len();
    let ghost chosen_so_far: Seq<int> = Seq::empty();
    let mut k: usize = 0;
    while k < roms.len()
        invariant
            nb == original.len(),
            k <= roms@.len(),
            chosen_so_far == chosen_roms(byte_shas, roms@, *cores, k as nat),
            forall|t: int| 0 <= t < chosen_so_far.len() ==> 0 <= #[trigger] chosen_so_far[t] < k,
            strings_view(covered@) == covered_roms(byte_shas, roms@, chosen_so_far),
            items@.len() == nb + chosen_so_far.len(),
            forall|j: int| 0 <= j < nb ==> #[trigger] items@[j] == FeedItem::Byte(original[j]),
            forall|t: int|
                0 <= t < chosen_so_far.len() ==> (#[trigger] items@[nb + t] matches FeedItem::RomFallback(f)
                    && fallback_made_of(f, roms@[chosen_so_far[t]], *cores)),
        decreases roms@.len() - k,
    {
        let e = &roms[k];
        let known = has_title(&covered, &e.rom_sha1);
        let system = system_from_rom_path(e.rom_path.as_str());
        let core = core_of(cores, system);
        if !known {
            match core {
                Some(core_id) => {
                    let title = match &e.title {
                        Some(t) => t.clone(),
                        None => title_from_rom_path(e.rom_path.as_str()),
                    };
                    let official_title = match &e.official_title {
                        Some(t) => Some(t.clone()),
                        None => None,
                    };
                    let f = RomFallback {
                        rom_sha1: e.rom_sha1.clone(),
                        rom_path: e.rom_path.clone(),
                        system,
                        title,
                        official_title,
                        core_id,
                        core_path: None,
                    };
                    assert(fallback_made_of(f, roms@[k as int], *cores));
                    items.push(FeedItem::RomFallback(f));
                    let ghost before = covered@;
                    assert(strings_view(before).len() == before.len());
                    covered.push(e.rom_sha1.clone());
                    proof {
                        assert(covered@ == before.push(roms@[k as int].rom_sha1));
                        let next = chosen_so_far.push(k as int);
                        assert(next.map_values(|j: int| roms@[j].rom_sha1@) =~= chosen_so_far.map_values(
                            |j: int| roms@[j].rom_sha1@,
                        ).push(roms@[k as int].rom_sha1@));
                        let x = roms@[k as int].rom_sha1@;
                        assert(strings_view(before) == covered_roms(byte_shas, roms@, chosen_so_far));
                        assert(strings_view(covered@) =~= strings_view(before).push(x));
                        assert(covered_roms(byte_shas, roms@, next) =~= covered_roms(byte_shas, roms@, chosen_so_far).push(x));
                        assert(strings_view(covered@) =~= covered_roms(byte_shas, roms@, next));
                        chosen_so_far = next;
                    }
                },
                None => {},
            }
        }
        k = k + 1;
    }
    items
}

} // verus!
