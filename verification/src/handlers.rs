//! The upload and download pipelines over the storage model.

use vstd::prelude::*;
use vstd::string::StringExecFns;

use crate::ids;
use crate::store::Store;
use crate::Post;

verus! {

/// The error taxonomy of the service. Every failure is terminal for the
/// current request and is surfaced directly to the caller.
#[derive(Clone, Copy, Debug, PartialEq, Eq, Structural)]
pub enum ApiError {
    /// The presented API key is not in the key set.
    Unauthorized,
    /// Malformed multipart body: wrong or missing part name, or a part
    /// without a declared content type.
    BadRequest,
    /// The payload exceeds the configured size cap.
    PayloadTooLarge,
    /// Unknown or malformed id, or missing blob.
    NotFound,
    /// The identifier generator failed to find an unused id.
    Internal,
}

/// One decoded part of a multipart body: its name, its declared content
/// type, and its body as the chunks in which it arrived.
pub struct UploadPart {
    pub name: String,
    pub content_type: Option<String>,
    pub chunks: Vec<Vec<u8>>,
}

/// The concatenation of a sequence of chunks, first to last.
pub open spec fn cat(chunks: Seq<Seq<u8>>) -> Seq<u8>
    decreases chunks.len(),
{
    if chunks.len() == 0 {
        Seq::empty()
    } else {
        cat(chunks.drop_last()) + chunks.last()
    }
}

/// The payload carried by an upload part: its chunks, concatenated.
pub open spec fn payload_of(part: UploadPart) -> Seq<u8> {
    cat(part.chunks.deep_view())
}

/// Accumulates the chunks of a part body into one byte vector.
pub fn concat_chunks(chunks: &Vec<Vec<u8>>) -> (r: Vec<u8>)
    ensures
        r@ == cat(chunks.deep_view()),
{
    let mut acc: Vec<u8> = Vec::new();
    let mut i: usize = 0;
    while i < chunks.len()
        invariant
            i <= chunks@.len(),
            acc@ == cat(chunks.deep_view().take(i as int)),
        decreases chunks@.len() - i,
    {
        let ghost pre = chunks.deep_view().take(i as int);
        let mut chunk = chunks[i].clone();
        acc.append(&mut chunk);
        i += 1;
        proof {
            let cur = chunks.deep_view().take(i as int);
            assert(cur.drop_last() =~= pre);
            assert(cur.last() == chunks.deep_view()[i - 1]);
        }
    }
    proof {
        assert(chunks.deep_view().take(chunks.deep_view().len() as int) =~= chunks.deep_view());
    }
    acc
}

/// The content type declared by an upload part, where one is declared.
pub open spec fn mime_of(part: UploadPart) -> Seq<char> {
    part.content_type->Some_0@
}

/// Whether an upload request passes every check of the pipeline: a valid
/// key, a first part named `data` with a declared content type, and a
/// payload within the size cap.
pub open spec fn request_accepted(key_ok: bool, parts: Seq<UploadPart>, cap: nat) -> bool {
    &&& key_ok
    &&& parts.len() > 0
    &&& parts[0].name@ == "data"@
    &&& parts[0].content_type is Some
    &&& payload_of(parts[0]).len() <= cap
}

/// The error produced by the first failing check, in pipeline order:
/// authentication before body shape, body shape before the size cap.
pub open spec fn request_rejection(key_ok: bool, parts: Seq<UploadPart>) -> ApiError {
    if !key_ok {
        ApiError::Unauthorized
    } else if parts.len() == 0 {
        ApiError::BadRequest
    } else if parts[0].name@ != "data"@ {
        ApiError::BadRequest
    } else if parts[0].content_type is None {
        ApiError::BadRequest
    } else {
        ApiError::PayloadTooLarge
    }
}

/// [`request_accepted`] against the key set and cap of a store.
pub open spec fn upload_accepted(s: Store, parts: Seq<UploadPart>, key: Seq<char>) -> bool {
    request_accepted(s.key_valid(key), parts, s.cap as nat)
}

/// [`request_rejection`] against the key set of a store.
pub open spec fn upload_rejection(s: Store, parts: Seq<UploadPart>, key: Seq<char>) -> ApiError {
    request_rejection(s.key_valid(key), parts)
}

/// How a successful upload changes the store: one blob holding exactly the
/// payload is appended, and one metadata record is appended that carries a
/// well-shaped, previously unused public id, the new blob's handle and the
/// declared content type. Nothing else changes.
pub open spec fn upload_effect(
    pre: Store,
    post: Store,
    id: Seq<char>,
    payload: Seq<u8>,
    mime: Seq<char>,
) -> bool {
    &&& ids::is_id(id)
    &&& !pre.has_post(id)
    &&& post.blobs@.len() == pre.blobs@.len() + 1
    &&& post.blobs@.last()@ == payload
    &&& forall|i: int| 0 <= i < pre.blobs@.len() ==> post.blobs@[i] == pre.blobs@[i]
    &&& post.posts@.len() == pre.posts@.len() + 1
    &&& post.posts@.last().id@ == id
    &&& post.posts@.last().blob_handle == pre.blobs@.len()
    &&& post.posts@.last().mime_type@ == mime
    &&& forall|i: int| 0 <= i < pre.posts@.len() ==> post.posts@[i] == pre.posts@[i]
    &&& post.keys == pre.keys
    &&& post.config == pre.config
    &&& post.cap == pre.cap
}

/// What `download` returns on a store: `NotFound` for an id that contains
/// a `.` or matches no record, otherwise the stored bytes and content type.
pub open spec fn spec_download(s: Store, id: Seq<char>) -> Result<(Seq<u8>, Seq<char>), ApiError> {
    if id.contains('.') || !s.has_post(id) {
        Err(ApiError::NotFound)
    } else {
        Ok((s.blobs@[s.post_for(id).blob_handle as int]@, s.post_for(id).mime_type@))
    }
}

/// The hardcoded fallback used when no configuration record is present.
pub fn default_url_prefix() -> (r: String)
    ensures
        r@ == "https://i.ionia.pw"@,
{
    "https://i.ionia.pw".to_owned()
}

/// Builds the externally returned download URL from a prefix and an id.
pub fn make_download_url(prefix: String, id: &str) -> (url: String)
    ensures
        url@ == prefix@ + "/"@ + id@,
{
    prefix.concat("/").concat(id)
}

/// Decides an upload request from the outcome of the key lookup, the
/// decoded parts and the size cap: the declared content type and the
/// accumulated payload on acceptance, the first failing check's error
/// otherwise. The authentication verdict is consumed before any part of
/// the body is touched.
pub fn check_upload_request(key_ok: bool, parts: &Vec<UploadPart>, cap: usize) -> (r: Result<
    (String, Vec<u8>),
    ApiError,
>)
    ensures
        request_accepted(key_ok, parts@, cap as nat) ==> (r matches Ok(x) && x.0@ == mime_of(
            parts@[0],
        ) && x.1@ == payload_of(parts@[0])),
        !request_accepted(key_ok, parts@, cap as nat) ==> r == Err::<(String, Vec<u8>), ApiError>(
            request_rejection(key_ok, parts@),
        ),
{
    if !key_ok {
        return Err(ApiError::Unauthorized);
    }
    if parts.len() == 0 {
        return Err(ApiError::BadRequest);
    }
    let part = &parts[0];
    let expected = "data".to_owned();
    if !(part.name == expected) {
        return Err(ApiError::BadRequest);
    }
    let mime = match &part.content_type {
        None => {
            return Err(ApiError::BadRequest);
        },
        Some(m) => m.clone(),
    };
    let payload = concat_chunks(&part.chunks);
    if payload.len() > cap {
        return Err(ApiError::PayloadTooLarge);
    }
    Ok((mime, payload))
}

/// Commits an accepted upload: writes the blob, then — only after that
/// write — appends the metadata record, and builds the download URL.
fn commit_upload(store: &mut Store, payload: Vec<u8>, mime: String, id: String) -> (url: String)
    requires
        old(store).wf(),
        ids::is_id(id@),
        !old(store).has_post(id@),
    ensures
        final(store).wf(),
        upload_effect(*old(store), *final(store), id@, payload@, mime@),
        url@ == old(store).url_prefix() + "/"@ + id@,
{
    let prefix = match &store.config {
        Some(c) => c.url_prefix.clone(),
        None => default_url_prefix(),
    };
    let ghost payload_view = payload@;
    let ghost mime_view = mime@;
    let handle = store.blobs.len();
    store.blobs.push(payload);
    let record = Post { id: id.clone(), blob_handle: handle, mime_type: mime };
    store.posts.push(record);
    proof {
        assert(upload_effect(*old(store), *store, id@, payload_view, mime_view));
        crate::laws::lemma_upload_preserves_wf(*old(store), *store, id@, payload_view, mime_view);
    }
    make_download_url(prefix, id.as_str())
}

/// The upload pipeline over a caller-supplied identifier: key gating, body
/// shape checks, the size cap, then a verify-before-insert uniqueness check
/// of `id` and the atomic commit of blob and metadata record. An id that is
/// not sixteen alphanumeric characters, or that is already in use, is
/// refused as `Internal` and leaves the store unchanged.
pub fn upload_with_id(
    store: &mut Store,
    parts: Vec<UploadPart>,
    api_key: String,
    id: String,
) -> (r: Result<String, ApiError>)
    requires
        old(store).wf(),
    ensures
        final(store).wf(),
        !upload_accepted(*old(store), parts@, api_key@) ==> r == Err::<String, ApiError>(
            upload_rejection(*old(store), parts@, api_key@),
        ) && *final(store) == *old(store),
        upload_accepted(*old(store), parts@, api_key@) && !(ids::is_id(id@) && !old(
            store,
        ).has_post(id@)) ==> r == Err::<String, ApiError>(ApiError::Internal) && *final(store)
            == *old(store),
        upload_accepted(*old(store), parts@, api_key@) && ids::is_id(id@) && !old(store).has_post(
            id@,
        ) ==> (r matches Ok(url) && upload_effect(
            *old(store),
            *final(store),
            id@,
            payload_of(parts@[0]),
            mime_of(parts@[0]),
        ) && url@ == old(store).url_prefix() + "/"@ + id@),
{
    let key_ok = store.is_valid_key(&api_key);
    let (mime, payload) = match check_upload_request(key_ok, &parts, store.cap) {
        Err(e) => {
            return Err(e);
        },
        Ok(x) => x,
    };
    if !ids::id_well_formed(id.as_str()) {
        return Err(ApiError::Internal);
    }
    if ids::id_taken(&store.posts, &id) {
        return Err(ApiError::Internal);
    }
    Ok(commit_upload(store, payload, mime, id))
}

/// The upload pipeline: key gating, body shape checks, the size cap, then
/// generation of a fresh identifier and the atomic commit of blob and
/// metadata record. On success the returned URL is the configured prefix,
/// a `/`, and the id of the one record this call appended; `Internal` is
/// returned, with the store untouched, only when no unused id was found —
/// which cannot happen on an empty metadata table, so there an accepted
/// request is owed success.
pub fn upload(store: &mut Store, parts: Vec<UploadPart>, api_key: String) -> (r: Result<
    String,
    ApiError,
>)
    requires
        old(store).wf(),
    ensures
        final(store).wf(),
        !upload_accepted(*old(store), parts@, api_key@) ==> r == Err::<String, ApiError>(
            upload_rejection(*old(store), parts@, api_key@),
        ) && *final(store) == *old(store),
        upload_accepted(*old(store), parts@, api_key@) ==> match r {
            Ok(url) => upload_effect(
                *old(store),
                *final(store),
                final(store).posts@.last().id@,
                payload_of(parts@[0]),
                mime_of(parts@[0]),
            ) && url@ == old(store).url_prefix() + "/"@ + final(store).posts@.last().id@,
            Err(e) => e == ApiError::Internal && *final(store) == *old(store),
        },
        upload_accepted(*old(store), parts@, api_key@) && old(store).posts@.len() == 0 ==> r is Ok,
{
    let key_ok = store.is_valid_key(&api_key);
    let (mime, payload) = match check_upload_request(key_ok, &parts, store.cap) {
        Err(e) => {
            return Err(e);
        },
        Ok(x) => x,
    };
    let id = match ids::fresh_id(&store.posts) {
        None => {
            return Err(ApiError::Internal);
        },
        Some(id) => id,
    };
    Ok(commit_upload(store, payload, mime, id))
}

/// The download pipeline: rejects ids containing a `.`, looks the record
/// up by id, reads the blob behind its handle and returns the bytes tagged
/// with the stored content type.
pub fn download(store: &Store, id: String) -> (r: Result<(Vec<u8>, String), ApiError>)
    requires
        store.wf(),
    ensures
        match r {
            Ok(resp) => spec_download(*store, id@) == Ok::<(Seq<u8>, Seq<char>), ApiError>(
                (resp.0@, resp.1@),
            ),
            Err(e) => spec_download(*store, id@) == Err::<(Seq<u8>, Seq<char>), ApiError>(e),
        },
{
    if ids::contains_dot(id.as_str()) {
        return Err(ApiError::NotFound);
    }
    let i = match store.find_post(&id) {
        None => {
            return Err(ApiError::NotFound);
        },
        Some(i) => i,
    };
    proof {
        assert(store.has_post(id@));
        let k = store.post_index(id@);
        assert(0 <= k < store.posts@.len() && store.posts@[k].id@ == id@);
        assert(k == i);
    }
    let record = &store.posts[i];
    let bytes = store.read_blob(record.blob_handle);
    let mime = record.mime_type.clone();
    Ok((bytes, mime))
}

} // verus!
