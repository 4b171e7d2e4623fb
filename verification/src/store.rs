//! The storage model: blob store, metadata table, key set and configuration.

use vstd::prelude::*;

use crate::{Config, Post};

verus! {

/// The state visible to the upload and download pipelines: the append-only
/// blob store, the metadata table of [`Post`] records, the set of valid API
/// keys, the configuration singleton and the inbound size cap.
pub struct Store {
    /// Append-only chunked binary storage; a blob handle is an index here.
    pub blobs: Vec<Vec<u8>>,
    /// Metadata records, one per successful upload.
    pub posts: Vec<Post>,
    /// The set of valid API keys (membership test only).
    pub keys: Vec<String>,
    /// The configuration singleton; `None` falls back to the default prefix.
    pub config: Option<Config>,
    /// Maximum accepted payload size in bytes.
    pub cap: usize,
}

impl Store {
    /// Well-formedness: every blob handle refers to a stored blob, and
    /// public ids are unique across the metadata table.
    pub open spec fn wf(self) -> bool {
        &&& forall|i: int|
            0 <= i < self.posts@.len() ==> (#[trigger] self.posts@[i]).blob_handle < self.blobs@.len()
        &&& forall|i: int, j: int|
            0 <= i < self.posts@.len() && 0 <= j < self.posts@.len() && i != j
                ==> (#[trigger] self.posts@[i]).id@ != (#[trigger] self.posts@[j]).id@
    }

    /// Whether some metadata record carries the public id `id`.
    pub open spec fn has_post(self, id: Seq<char>) -> bool {
        exists|i: int| 0 <= i < self.posts@.len() && (#[trigger] self.posts@[i]).id@ == id
    }

    /// The index of the record with public id `id`, where one exists.
    pub open spec fn post_index(self, id: Seq<char>) -> int {
        choose|i: int| 0 <= i < self.posts@.len() && (#[trigger] self.posts@[i]).id@ == id
    }

    /// The record with public id `id`, where one exists.
    pub open spec fn post_for(self, id: Seq<char>) -> Post {
        self.posts@[self.post_index(id)]
    }

    /// Whether `key` is a member of the API key set.
    pub open spec fn key_valid(self, key: Seq<char>) -> bool {
        exists|i: int| 0 <= i < self.keys@.len() && (#[trigger] self.keys@[i])@ == key
    }

    /// The prefix of returned download URLs: the configured one, or the
    /// hardcoded default when no configuration record is present.
    pub open spec fn url_prefix(self) -> Seq<char> {
        match self.config {
            Some(c) => c.url_prefix@,
            None => "https://i.ionia.pw"@,
        }
    }

    /// An empty store with the given key set, configuration and size cap.
    pub fn new(keys: Vec<String>, config: Option<Config>, cap: usize) -> (s: Store)
        ensures
            s.wf(),
            s.blobs@.len() == 0,
            s.posts@.len() == 0,
            s.keys == keys,
            s.config == config,
            s.cap == cap,
    {
        Store { blobs: Vec::new(), posts: Vec::new(), keys, config, cap }
    }

    /// Membership test of the API key set.
    pub fn is_valid_key(&self, key: &String) -> (r: bool)
        ensures
            r == self.key_valid(key@),
    {
        let mut i: usize = 0;
        while i < self.keys.len()
            invariant
                i <= self.keys@.len(),
                forall|j: int| 0 <= j < i ==> (#[trigger] self.keys@[j])@ != key@,
            decreases self.keys@.len() - i,
        {
            if self.keys[i] == *key {
                return true;
            }
            i += 1;
        }
        false
    }

    /// Reads the complete blob behind a handle out of the blob store.
    pub fn read_blob(&self, handle: usize) -> (r: Vec<u8>)
        requires
            handle < self.blobs@.len(),
        ensures
            r@ == self.blobs@[handle as int]@,
    {
        let blob = &self.blobs[handle];
        let mut out: Vec<u8> = Vec::new();
        let mut i: usize = 0;
        while i < blob.len()
            invariant
                i <= blob@.len(),
                out@ == blob@.take(i as int),
            decreases blob@.len() - i,
        {
            out.push(blob[i]);
            i += 1;
            proof {
                assert(blob@.take(i as int) =~= blob@.take(i - 1).push(blob@[i - 1]));
            }
        }
        proof {
            assert(blob@.take(blob@.len() as int) =~= blob@);
        }
        out
    }

    /// Looks up the index of the record carrying the public id `id`.
    pub fn find_post(&self, id: &String) -> (r: Option<usize>)
        ensures
            match r {
                Some(i) => i < self.posts@.len() && self.posts@[i as int].id@ == id@,
                None => !self.has_post(id@),
            },
    {
        let mut i: usize = 0;
        while i < self.posts.len()
            invariant
                i <= self.posts@.len(),
                forall|j: int| 0 <= j < i ==> (#[trigger] self.posts@[j]).id@ != id@,
            decreases self.posts@.len() - i,
        {
            if self.posts[i].id == *id {
                return Some(i);
            }
            i += 1;
        }
        None
    }
}

} // verus!
