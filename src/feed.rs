//! The local store of saved moments ("bytes"): their metadata index, where
//! their files live, and the decoded states and thumbnails already read.
use crate::hash::{zstd_decode, zstd_decoded, zstd_encode, zstd_encoded_level3};
use crate::search::{
    first_index, lemma_first_index_agree, lemma_first_index_none, lemma_first_index_props,
    lemma_first_index_some, lemma_first_index_some_exists,
};
use crate::text::{join_path, owned, path_join, str_eq};
use crate::types::ByteMetadata;
use vstd::prelude::*;

verus! {

/// Failures of the byte store.
#[derive(Debug, Clone, PartialEq, Eq)]
pub enum FeedError {
    Io(String),
    Json(String),
    Http(String),
    MissingMetadata(String),
}

/// Two metadata records with the same contents.
pub open spec fn same_metadata(a: ByteMetadata, b: ByteMetadata) -> bool {
    &&& a.byte_id@ == b.byte_id@
    &&& a.system == b.system
    &&& a.core_id@ == b.core_id@
    &&& a.core_semver@ == b.core_semver@
    &&& a.rom_sha1@ == b.rom_sha1@
    &&& match (a.region, b.region) {
        (Some(x), Some(y)) => x@ == y@,
        (None, None) => true,
        _ => false,
    }
    &&& a.title@ == b.title@
    &&& a.description@ == b.description@
    &&& a.tags@.len() == b.tags@.len()
    &&& forall|i: int| 0 <= i < a.tags@.len() ==> #[trigger] a.tags@[i]@ == b.tags@[i]@
    &&& a.author@ == b.author@
    &&& a.created_at@ == b.created_at@
    &&& a.thumbnail_path@ == b.thumbnail_path@
    &&& a.state_path@ == b.state_path@
}

/// A field-by-field copy of a metadata record.
pub fn copy_metadata(m: &ByteMetadata) -> (r: ByteMetadata)
    ensures
        same_metadata(r, *m),
{
    let mut tags: Vec<String> = Vec::new();
    let mut i: usize = 0;
    while i < m.tags.len()
        invariant
            i <= m.tags@.len(),
            tags@.len() == i,
            forall|j: int| 0 <= j < i ==> #[trigger] tags@[j]@ == m.tags@[j]@,
        decreases m.tags@.len() - i,
    {
        tags.push(m.tags[i].clone());
        i = i + 1;
    }
    let region = match &m.region {
        Some(r) => Some(r.clone()),
        None => None,
    };
    ByteMetadata {
        byte_id: m.byte_id.clone(),
        system: m.system,
        core_id: m.core_id.clone(),
        core_semver: m.core_semver.clone(),
        rom_sha1: m.rom_sha1.clone(),
        region,
        title: m.title.clone(),
        description: m.description.clone(),
        tags,
        author: m.author.clone(),
        created_at: m.created_at.clone(),
        thumbnail_path: m.thumbnail_path.clone(),
        state_path: m.state_path.clone(),
    }
}

/// The bytes cached under `key`: those of its first entry.
pub open spec fn blob_lookup(v: Seq<(String, Vec<u8>)>, key: Seq<char>) -> Option<Seq<u8>> {
    match first_index(v.len(), |i: int| v[i].0@ == key) {
        Some(i) => Some(v[i].1@),
        None => None,
    }
}

fn blob_find(cache: &Vec<(String, Vec<u8>)>, key: &str) -> (r: Option<Vec<u8>>)
    ensures
        match blob_lookup(cache@, key@) {
            Some(b) => r is Some && r->0@ == b,
            None => r is None,
        },
{
    let ghost p = |i: int| cache@[i].0@ == key@;
    let mut i: usize = 0;
    while i < cache.len()
        invariant
            i <= cache@.len(),
            p == (|i: int| cache@[i].0@ == key@),
            forall|j: int| 0 <= j < i ==> !#[trigger] p(j),
        decreases cache@.len() - i,
    {
        if str_eq(cache[i].0.as_str(), key) {
            proof {
                lemma_first_index_some(cache@.len(), p, i as int);
            }
            let b = cache[i].1.clone();
            assert(b@ =~= cache@[i as int].1@);
            return Some(b);
        }
        i = i + 1;
    }
    proof {
        lemma_first_index_none(cache@.len(), p);
    }
    None
}

fn blob_add(cache: &mut Vec<(String, Vec<u8>)>, key: &str, bytes: Vec<u8>)
    requires
        blob_lookup(old(cache)@, key@) is None,
    ensures
        blob_lookup(final(cache)@, key@) == Some(bytes@),
        forall|k: Seq<char>| k != key@ ==> blob_lookup(final(cache)@, k) == blob_lookup(old(cache)@, k),
{
    let ghost before = cache@;
    cache.push((owned(key), bytes));
    proof {
        let after = cache@;
        assert forall|k: Seq<char>|
            #![trigger blob_lookup(after, k)]
            k != key@ ==> blob_lookup(after, k) == blob_lookup(before, k) by {
            let p1 = |j: int| after[j].0@ == k;
            let p0 = |j: int| before[j].0@ == k;
            assert(forall|j: int| 0 <= j < before.len() ==> after[j] == before[j]);
            lemma_first_index_agree(before.len(), p1, p0);
            lemma_first_index_props(before.len(), p0);
        }
        let p1 = |j: int| after[j].0@ == key@;
        let p0 = |j: int| before[j].0@ == key@;
        assert(forall|j: int| 0 <= j < before.len() ==> after[j] == before[j]);
        lemma_first_index_agree(before.len(), p1, p0);
        lemma_first_index_props(before.len(), p0);
        assert(forall|j: int| 0 <= j < before.len() ==> !#[trigger] p1(j)) by {
            assert forall|j: int| 0 <= j < before.len() implies !#[trigger] p1(j) by {
                if p1(j) {
                    assert(p0(j));
                    lemma_first_index_some_exists(before.len(), p0, j);
                }
            }
        }
        lemma_first_index_some(after.len(), p1, before.len() as int);
    }
}


/// The saved moments kept under one data folder.
#[derive(Debug)]
pub struct LocalByteStore {
    root: String,
    index: Vec<ByteMetadata>,
    state_cache: Vec<(String, Vec<u8>)>,
    thumbnail_cache: Vec<(String, Vec<u8>)>,
}

impl LocalByteStore {
    pub closed spec fn spec_root(&self) -> Seq<char> {
        self.root@
    }

    /// The known metadata records, in the order they became known.
    pub closed spec fn spec_index(&self) -> Seq<ByteMetadata> {
        self.index@
    }

    pub closed spec fn spec_cached_state(&self, byte_id: Seq<char>) -> Option<Seq<u8>> {
        blob_lookup(self.state_cache@, byte_id)
    }

    pub closed spec fn spec_cached_thumbnail(&self, byte_id: Seq<char>) -> Option<Seq<u8>> {
        blob_lookup(self.thumbnail_cache@, byte_id)
    }

    /// An empty store rooted at `root`.
    pub fn new(root: &str) -> (r: LocalByteStore)
        ensures
            r.spec_root() == root@,
            r.spec_index().len() == 0,
            forall|k: Seq<char>| r.spec_cached_state(k) is None && r.spec_cached_thumbnail(k) is None,
    {
        LocalByteStore {
            root: owned(root),
            index: Vec::new(),
            state_cache: Vec::new(),
            thumbnail_cache: Vec::new(),
        }
    }

    /// The folder holding one sub-folder per byte.
    pub fn bytes_root(&self) -> (r: String)
        ensures
            r@ == path_join(self.spec_root(), "bytes"@),
    {
        join_path(self.root.as_str(), "bytes")
    }

    /// Where the metadata file of a byte lives.
    pub fn metadata_path(&self, byte_id: &str) -> (r: String)
        ensures
            r@ == path_join(path_join(path_join(self.spec_root(), "bytes"@), byte_id@), "byte.json"@),
    {
        let dir = join_path(self.bytes_root().as_str(), byte_id);
        join_path(dir.as_str(), "byte.json")
    }

    /// Where the compressed state of a byte lives.
    pub fn state_file(&self, m: &ByteMetadata) -> (r: String)
        ensures
            r@ == path_join(path_join(path_join(self.spec_root(), "bytes"@), m.byte_id@), m.state_path@),
    {
        let dir = join_path(self.bytes_root().as_str(), m.byte_id.as_str());
        join_path(dir.as_str(), m.state_path.as_str())
    }

    /// Where the thumbnail of a byte lives.
    pub fn thumbnail_file(&self, m: &ByteMetadata) -> (r: String)
        ensures
            r@ == path_join(path_join(path_join(self.spec_root(), "bytes"@), m.byte_id@), m.thumbnail_path@),
    {
        let dir = join_path(self.bytes_root().as_str(), m.byte_id.as_str());
        join_path(dir.as_str(), m.thumbnail_path.as_str())
    }

    /// Replaces the index with the records read from disk.
    pub fn set_index(&mut self, entries: Vec<ByteMetadata>)
        ensures
            final(self).spec_index() == entries@,
            final(self).spec_root() == old(self).spec_root(),
            forall|k: Seq<char>| final(self).spec_cached_state(k) == old(self).spec_cached_state(k),
            forall|k: Seq<char>| final(self).spec_cached_thumbnail(k) == old(self).spec_cached_thumbnail(k),
    {
        self.index = entries;
    }

    /// Adds a record to the index.
    pub fn remember(&mut self, m: ByteMetadata)
        ensures
            final(self).spec_index() == old(self).spec_index().push(m),
            final(self).spec_root() == old(self).spec_root(),
            forall|k: Seq<char>| final(self).spec_cached_state(k) == old(self).spec_cached_state(k),
            forall|k: Seq<char>| final(self).spec_cached_thumbnail(k) == old(self).spec_cached_thumbnail(k),
    {
        self.index.push(m);
    }

    /// A copy of every known record, in index order.
    pub fn list(&self) -> (r: Vec<ByteMetadata>)
        ensures
            r@.len() == self.spec_index().len(),
            forall|i: int| 0 <= i < r@.len() ==> same_metadata(#[trigger] r@[i], self.spec_index()[i]),
    {
        let mut out: Vec<ByteMetadata> = Vec::new();
        let mut i: usize = 0;
        while i < self.index.len()
            invariant
                i <= self.index@.len(),
                out@.len() == i,
                forall|j: int| 0 <= j < i ==> same_metadata(#[trigger] out@[j], self.index@[j]),
            decreases self.index@.len() - i,
        {
            out.push(copy_metadata(&self.index[i]));
            i = i + 1;
        }
        out
    }

    /// The first indexed record with this id; a byte that is not indexed is
    /// reported missing (its metadata is then read from disk by the caller
    /// and remembered).
    pub fn get(&self, byte_id: &str) -> (r: Result<ByteMetadata, FeedError>)
        ensures
            match first_index(self.spec_index().len(), |i: int| self.spec_index()[i].byte_id@ == byte_id@) {
                Some(i) => r matches Ok(m) && same_metadata(m, self.spec_index()[i]),
                None => r matches Err(FeedError::MissingMetadata(id)) && id@ == byte_id@,
            },
    {
        let ghost p = |i: int| self.spec_index()[i].byte_id@ == byte_id@;
        let mut i: usize = 0;
        while i < self.index.len()
            invariant
                i <= self.index@.len(),
                p == (|i: int| self.spec_index()[i].byte_id@ == byte_id@),
                forall|j: int| 0 <= j < i ==> !#[trigger] p(j),
            decreases self.index@.len() - i,
        {
            if str_eq(self.index[i].byte_id.as_str(), byte_id) {
                proof {
                    lemma_first_index_some(self.index@.len(), p, i as int);
                }
                return Ok(copy_metadata(&self.index[i]));
            }
            i = i + 1;
        }
        proof {
            lemma_first_index_none(self.index@.len(), p);
        }
        Err(FeedError::MissingMetadata(owned(byte_id)))
    }

    /// The decoded state of a byte, if it was read before.
    pub fn cached_state(&self, byte_id: &str) -> (r: Option<Vec<u8>>)
        ensures
            match self.spec_cached_state(byte_id@) {
                Some(b) => r is Some && r->0@ == b,
                None => r is None,
            },
    {
        blob_find(&self.state_cache, byte_id)
    }

    /// Decodes a state read from disk and keeps it for later reads; a stream
    /// that does not decode is an I/O failure and caches nothing.
    pub fn decode_state(&mut self, byte_id: &str, compressed: &[u8]) -> (r: Result<Vec<u8>, FeedError>)
        requires
            old(self).spec_cached_state(byte_id@) is None,
        ensures
            r is Ok <==> zstd_decoded(compressed@) is Some,
            r matches Ok(s) ==> zstd_decoded(compressed@) == Some(s@) && final(self).spec_cached_state(byte_id@) == Some(s@),
            r is Err ==> final(self).spec_cached_state(byte_id@) is None,
            forall|k: Seq<char>| k != byte_id@ ==> final(self).spec_cached_state(k) == old(self).spec_cached_state(k),
            forall|k: Seq<char>| final(self).spec_cached_thumbnail(k) == old(self).spec_cached_thumbnail(k),
            final(self).spec_index() == old(self).spec_index(),
            final(self).spec_root() == old(self).spec_root(),
    {
        match zstd_decode(compressed) {
            Ok(state) => {
                let kept = state.clone();
                assert(kept@ =~= state@);
                blob_add(&mut self.state_cache, byte_id, kept);
                Ok(state)
            },
            Err(e) => Err(FeedError::Io(e)),
        }
    }

    /// The thumbnail of a byte, if it was read before.
    pub fn cached_thumbnail(&self, byte_id: &str) -> (r: Option<Vec<u8>>)
        ensures
            match self.spec_cached_thumbnail(byte_id@) {
                Some(b) => r is Some && r->0@ == b,
                None => r is None,
            },
    {
        blob_find(&self.thumbnail_cache, byte_id)
    }

    /// Keeps a thumbnail read from disk for later reads.
    pub fn keep_thumbnail(&mut self, byte_id: &str, data: Vec<u8>)
        requires
            old(self).spec_cached_thumbnail(byte_id@) is None,
        ensures
            final(self).spec_cached_thumbnail(byte_id@) == Some(data@),
            forall|k: Seq<char>| k != byte_id@ ==> final(self).spec_cached_thumbnail(k) == old(self).spec_cached_thumbnail(k),
            forall|k: Seq<char>| final(self).spec_cached_state(k) == old(self).spec_cached_state(k),
            final(self).spec_index() == old(self).spec_index(),
            final(self).spec_root() == old(self).spec_root(),
    {
        blob_add(&mut self.thumbnail_cache, byte_id, data);
    }

    /// Compresses a state for saving.
    pub fn encode_state(state: &[u8]) -> (r: Result<Vec<u8>, FeedError>)
        ensures
            r is Ok <==> zstd_encoded_level3(state@) is Some,
            r matches Ok(c) ==> zstd_encoded_level3(state@) == Some(c@),
    {
        match zstd_encode(state) {
            Ok(c) => Ok(c),
            Err(e) => Err(FeedError::Io(e)),
        }
    }
}

} // verus!
