//! System-level laws of the upload and download pipelines.
//!
//! Each law is stated over [`crate::handlers::upload_effect`], the exact
//! relation that the upload pipeline's postcondition establishes between
//! the store before and after a successful upload.

use vstd::prelude::*;

use crate::handlers::{
    payload_of, spec_download, upload_accepted, upload_effect, upload_rejection, ApiError,
    UploadPart,
};
use crate::ids;
use crate::store::Store;

verus! {

/// An authorized upload of a `data` part with a declared content type whose
/// payload exceeds the size cap is rejected, and rejected as
/// `PayloadTooLarge` — a condition distinct from the authentication and
/// body-shape errors. Together with `upload`'s postcondition this means the
/// call returns exactly that error and leaves the store unchanged.
pub proof fn lemma_over_cap_rejected(s: Store, parts: Seq<UploadPart>, key: Seq<char>)
    requires
        s.key_valid(key),
        parts.len() > 0,
        parts[0].name@ == "data"@,
        parts[0].content_type is Some,
        payload_of(parts[0]).len() > s.cap,
    ensures
        !upload_accepted(s, parts, key),
        upload_rejection(s, parts, key) == ApiError::PayloadTooLarge,
{
}

/// A successful upload keeps the store well formed.
pub proof fn lemma_upload_preserves_wf(
    pre: Store,
    post: Store,
    id: Seq<char>,
    payload: Seq<u8>,
    mime: Seq<char>,
)
    requires
        pre.wf(),
        upload_effect(pre, post, id, payload, mime),
    ensures
        post.wf(),
{
    assert forall|i: int, j: int|
        0 <= i < post.posts@.len() && 0 <= j < post.posts@.len() && i != j implies (
    #[trigger] post.posts@[i]).id@ != (#[trigger] post.posts@[j]).id@ by {
        if i == post.posts@.len() - 1 || j == post.posts@.len() - 1 {
            assert(forall|k: int|
                0 <= k < pre.posts@.len() ==> (#[trigger] pre.posts@[k]).id@ != id);
        }
    }
}

/// Round trip: downloading the id issued by a successful upload returns
/// bytes identical to the uploaded payload, tagged with the content type
/// supplied at upload.
pub proof fn lemma_round_trip(
    pre: Store,
    post: Store,
    id: Seq<char>,
    payload: Seq<u8>,
    mime: Seq<char>,
)
    requires
        pre.wf(),
        upload_effect(pre, post, id, payload, mime),
    ensures
        post.wf(),
        spec_download(post, id) == Ok::<(Seq<u8>, Seq<char>), ApiError>((payload, mime)),
{
    lemma_upload_preserves_wf(pre, post, id, payload, mime);
    ids::lemma_id_has_no_dot(id);
    let n = post.posts@.len() - 1;
    assert(post.posts@[n].id@ == id);
    assert(post.has_post(id));
    let k = post.post_index(id);
    assert(0 <= k < post.posts@.len() && post.posts@[k].id@ == id);
    assert(k == n);
    assert(post.post_for(id).blob_handle == post.blobs@.len() - 1);
    assert(post.blobs@[post.blobs@.len() - 1]@ == payload);
}

/// Two successive successful uploads issue distinct ids, and each id still
/// retrieves exactly its own payload and content type afterwards: uploads
/// do not interfere with one another.
pub proof fn lemma_uploads_independent(
    s0: Store,
    s1: Store,
    s2: Store,
    id1: Seq<char>,
    id2: Seq<char>,
    p1: Seq<u8>,
    p2: Seq<u8>,
    m1: Seq<char>,
    m2: Seq<char>,
)
    requires
        s0.wf(),
        upload_effect(s0, s1, id1, p1, m1),
        upload_effect(s1, s2, id2, p2, m2),
    ensures
        id1 != id2,
        spec_download(s2, id1) == Ok::<(Seq<u8>, Seq<char>), ApiError>((p1, m1)),
        spec_download(s2, id2) == Ok::<(Seq<u8>, Seq<char>), ApiError>((p2, m2)),
{
    lemma_upload_preserves_wf(s0, s1, id1, p1, m1);
    lemma_upload_preserves_wf(s1, s2, id2, p2, m2);
    lemma_round_trip(s1, s2, id2, p2, m2);
    ids::lemma_id_has_no_dot(id1);
    // The record written by the first upload survives the second one.
    let n1 = s1.posts@.len() - 1;
    assert(s1.posts@[n1].id@ == id1);
    assert(s2.posts@[n1] == s1.posts@[n1]);
    assert(s2.has_post(id1));
    assert(!s1.has_post(id2));
    let k = s2.post_index(id1);
    assert(0 <= k < s2.posts@.len() && s2.posts@[k].id@ == id1);
    assert(k == n1);
    // So does the blob it wrote.
    let h = s2.post_for(id1).blob_handle as int;
    assert(h == s1.blobs@.len() - 1);
    assert(s2.blobs@[h] == s1.blobs@[h]);
    assert(s2.blobs@[h]@ == p1);
}

} // verus!
