//! A minimal anonymous-upload file host, modelled and verified.
//!
//! A client presents a pre-shared key and uploads a binary payload as the
//! `data` part of a multipart body; it receives back a short download URL
//! ending in an opaque identifier. Any holder of that identifier can later
//! retrieve the exact bytes together with the content type declared at
//! upload time.
//!
//! The storage backends (blob store, metadata table, key set and
//! configuration singleton) are modelled by [`store::Store`]; the pipelines
//! over it live in [`handlers`].

use vstd::prelude::*;

pub mod handlers;
pub mod ids;
pub mod laws;
pub mod store;

verus! {

/// Metadata record linking a public id to a stored blob and its mime type.
///
/// A `Post` is created once, atomically, at the end of a successful upload;
/// it is never mutated and never deleted.
pub struct Post {
    /// Public identifier: the external lookup key for retrieval.
    pub id: String,
    /// Opaque handle into the blob store, assigned at write time.
    pub blob_handle: usize,
    /// Content type captured verbatim from the uploaded part.
    pub mime_type: String,
}

/// Singleton configuration record: the prefix of returned download URLs.
pub struct Config {
    pub url_prefix: String,
}

/// One entry of the set of valid API keys.
pub struct Key {
    pub key: String,
}

} // verus!
