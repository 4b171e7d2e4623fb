use lilith_upload::handlers::{
    check_upload_request, default_url_prefix, download, make_download_url, upload, upload_with_id,
    ApiError, UploadPart,
};
use lilith_upload::ids::{contains_dot, fresh_id, id_well_formed, ID_LEN};
use lilith_upload::store::Store;
use lilith_upload::{Config, Key, Post};

const CAP: usize = 200_000_000;

fn store_with_key(key: &str, prefix: Option<&str>, cap: usize) -> Store {
    Store::new(
        vec![key.to_string()],
        prefix.map(|p| Config { url_prefix: p.to_string() }),
        cap,
    )
}

fn data_part(content_type: Option<&str>, chunks: Vec<Vec<u8>>) -> UploadPart {
    UploadPart {
        name: "data".to_string(),
        content_type: content_type.map(|c| c.to_string()),
        chunks,
    }
}

fn id_from_url<'a>(url: &'a str, prefix: &str) -> &'a str {
    let head = format!("{}/", prefix);
    assert!(url.starts_with(&head), "url {} lacks prefix {}", url, head);
    &url[head.len()..]
}

#[test]
fn round_trip_hello_test() {
    let mut s = store_with_key("valid-key", Some("https://files.example"), CAP);
    let parts = vec![data_part(Some("text/plain"), vec![b"hello-test".to_vec()])];
    let url = upload(&mut s, parts, "valid-key".to_string()).expect("upload should succeed");
    let id = id_from_url(&url, "https://files.example").to_string();
    assert_eq!(id.len(), ID_LEN);
    assert!(id.chars().all(|c| c.is_ascii_alphanumeric()));
    let (bytes, mime) = download(&s, id).expect("download should succeed");
    assert_eq!(bytes, b"hello-test".to_vec());
    assert_eq!(mime, "text/plain");
    assert_eq!(s.posts.len(), 1);
    assert_eq!(s.blobs.len(), 1);
}

#[test]
fn default_prefix_when_no_config() {
    let mut s = store_with_key("k", None, CAP);
    let parts = vec![data_part(Some("image/png"), vec![vec![0, 1, 2]])];
    let url = upload(&mut s, parts, "k".to_string()).unwrap();
    assert!(url.starts_with("https://i.ionia.pw/"));
    assert_eq!(default_url_prefix(), "https://i.ionia.pw");
}

#[test]
fn upload_rejects_unknown_key() {
    let mut s = store_with_key("right", None, CAP);
    let parts = vec![data_part(Some("text/plain"), vec![b"abc".to_vec()])];
    let r = upload(&mut s, parts, "wrong".to_string());
    assert_eq!(r, Err(ApiError::Unauthorized));
    assert_eq!(s.posts.len(), 0, "no Post record on auth failure");
    assert_eq!(s.blobs.len(), 0, "no blob write on auth failure");
}

#[test]
fn upload_rejects_missing_content_type() {
    let mut s = store_with_key("k", None, CAP);
    let parts = vec![data_part(None, vec![b"abc".to_vec()])];
    let r = upload(&mut s, parts, "k".to_string());
    assert_eq!(r, Err(ApiError::BadRequest));
    assert_eq!(s.posts.len(), 0);
    assert_eq!(s.blobs.len(), 0);
}

#[test]
fn upload_rejects_wrong_part_name() {
    let mut s = store_with_key("k", None, CAP);
    let parts = vec![UploadPart {
        name: "file".to_string(),
        content_type: Some("text/plain".to_string()),
        chunks: vec![b"abc".to_vec()],
    }];
    let r = upload(&mut s, parts, "k".to_string());
    assert_eq!(r, Err(ApiError::BadRequest));
    assert_eq!(s.posts.len(), 0);
    assert_eq!(s.blobs.len(), 0);
}

#[test]
fn upload_rejects_empty_body() {
    let mut s = store_with_key("k", None, CAP);
    let r = upload(&mut s, Vec::new(), "k".to_string());
    assert_eq!(r, Err(ApiError::BadRequest));
    assert_eq!(s.posts.len(), 0);
}

#[test]
fn upload_rejects_payload_over_cap() {
    let mut s = store_with_key("k", None, 10);
    let parts = vec![data_part(Some("text/plain"), vec![vec![7u8; 11]])];
    let r = upload(&mut s, parts, "k".to_string());
    assert_eq!(r, Err(ApiError::PayloadTooLarge));
    assert_eq!(s.posts.len(), 0);
    assert_eq!(s.blobs.len(), 0);
}

#[test]
fn upload_accepts_payload_at_cap() {
    let mut s = store_with_key("k", None, 10);
    let parts = vec![data_part(Some("text/plain"), vec![vec![7u8; 10]])];
    assert!(upload(&mut s, parts, "k".to_string()).is_ok());
    assert_eq!(s.posts.len(), 1);
}

#[test]
fn auth_is_checked_before_body_shape() {
    // An unauthenticated request is rejected as Unauthorized even when the
    // body is malformed too.
    let mut s = store_with_key("right", None, CAP);
    let parts = vec![UploadPart { name: "file".to_string(), content_type: None, chunks: vec![] }];
    let r = upload(&mut s, parts, "wrong".to_string());
    assert_eq!(r, Err(ApiError::Unauthorized));
    let r = check_upload_request(false, &Vec::new(), CAP);
    assert_eq!(r, Err(ApiError::Unauthorized));
}

#[test]
fn download_rejects_id_with_dot_even_when_record_exists() {
    let mut s = store_with_key("k", None, CAP);
    s.blobs.push(b"bytes".to_vec());
    s.posts.push(Post {
        id: "has.dot".to_string(),
        blob_handle: 0,
        mime_type: "text/plain".to_string(),
    });
    let r = download(&s, "has.dot".to_string());
    assert_eq!(r, Err(ApiError::NotFound));
}

#[test]
fn download_rejects_unknown_id() {
    let s = store_with_key("k", None, CAP);
    let r = download(&s, "0123456789abcdef".to_string());
    assert_eq!(r, Err(ApiError::NotFound));
}

#[test]
fn two_uploads_are_independent() {
    let mut s = Store::new(
        vec!["key-a".to_string(), "key-b".to_string()],
        Some(Config { url_prefix: "https://files.example".to_string() }),
        CAP,
    );
    let parts1 = vec![data_part(Some("text/plain"), vec![b"first".to_vec()])];
    let parts2 = vec![data_part(Some("application/json"), vec![b"second".to_vec()])];
    let url1 = upload(&mut s, parts1, "key-a".to_string()).unwrap();
    let url2 = upload(&mut s, parts2, "key-b".to_string()).unwrap();
    let id1 = id_from_url(&url1, "https://files.example").to_string();
    let id2 = id_from_url(&url2, "https://files.example").to_string();
    assert_ne!(id1, id2, "distinct uploads must issue distinct ids");
    let (b1, m1) = download(&s, id1).unwrap();
    let (b2, m2) = download(&s, id2).unwrap();
    assert_eq!((b1, m1), (b"first".to_vec(), "text/plain".to_string()));
    assert_eq!((b2, m2), (b"second".to_vec(), "application/json".to_string()));
}

#[test]
fn chunked_payload_is_concatenated_in_order() {
    let mut s = store_with_key("k", Some("p"), CAP);
    let parts = vec![data_part(
        Some("application/octet-stream"),
        vec![b"ab".to_vec(), Vec::new(), b"cd".to_vec(), b"e".to_vec()],
    )];
    let url = upload(&mut s, parts, "k".to_string()).unwrap();
    let id = id_from_url(&url, "p").to_string();
    let (bytes, _) = download(&s, id).unwrap();
    assert_eq!(bytes, b"abcde".to_vec());
}

#[test]
fn generated_ids_have_the_documented_shape() {
    // Would fail if the identifier generator returned anything but sixteen
    // fresh alphanumeric characters.
    let mut s = store_with_key("k", Some("x"), CAP);
    let mut seen = Vec::new();
    for i in 0..8 {
        let parts = vec![data_part(Some("text/plain"), vec![vec![i as u8]])];
        let url = upload(&mut s, parts, "k".to_string()).unwrap();
        let id = id_from_url(&url, "x").to_string();
        assert_eq!(id.len(), ID_LEN);
        assert!(id.chars().all(|c| c.is_ascii_alphanumeric()));
        assert!(!seen.contains(&id));
        seen.push(id);
    }
}

#[test]
fn upload_with_id_refuses_a_taken_id() {
    let mut s = store_with_key("k", None, CAP);
    let parts = vec![data_part(Some("text/plain"), vec![b"one".to_vec()])];
    let r = upload_with_id(&mut s, parts, "k".to_string(), "AAAABBBBCCCCDDDD".to_string());
    assert!(r.is_ok());
    let parts = vec![data_part(Some("text/plain"), vec![b"two".to_vec()])];
    let r = upload_with_id(&mut s, parts, "k".to_string(), "AAAABBBBCCCCDDDD".to_string());
    assert_eq!(r, Err(ApiError::Internal));
    assert_eq!(s.posts.len(), 1, "a colliding id must not overwrite a record");
    let (bytes, _) = download(&s, "AAAABBBBCCCCDDDD".to_string()).unwrap();
    assert_eq!(bytes, b"one".to_vec());
}

#[test]
fn upload_with_id_refuses_an_ill_shaped_id() {
    let mut s = store_with_key("k", None, CAP);
    let parts = vec![data_part(Some("text/plain"), vec![b"one".to_vec()])];
    let r = upload_with_id(&mut s, parts, "k".to_string(), "bad.id".to_string());
    assert_eq!(r, Err(ApiError::Internal));
    assert_eq!(s.posts.len(), 0);
}

#[test]
fn url_is_prefix_slash_id() {
    let url = make_download_url("https://files.example".to_string(), "AAAABBBBCCCCDDDD");
    assert_eq!(url, "https://files.example/AAAABBBBCCCCDDDD");
}

#[test]
fn dot_detection_and_id_shape_checks() {
    assert!(contains_dot("a.b"));
    assert!(contains_dot("."));
    assert!(!contains_dot(""));
    assert!(!contains_dot("abc"));
    assert!(id_well_formed("AAAABBBBCCCCDDDD"));
    assert!(id_well_formed("0123456789abcdef"));
    assert!(!id_well_formed("short"));
    assert!(!id_well_formed("AAAABBBBCCCCDDD."));
    assert!(!id_well_formed("AAAABBBBCCCCDDDDE"));
}

#[test]
fn upload_into_empty_store_is_owed_success() {
    // No draw can collide with an empty metadata table.
    let id = fresh_id(&Vec::new()).expect("a fresh id is owed on an empty table");
    assert_eq!(id.len(), ID_LEN);
    let mut s = store_with_key("k", None, CAP);
    let parts = vec![data_part(Some("text/plain"), vec![b"x".to_vec()])];
    assert!(upload(&mut s, parts, "k".to_string()).is_ok());
}

#[test]
fn key_struct_holds_a_key() {
    // The key set is provisioned externally as Key records.
    let k = Key { key: "valid-key".to_string() };
    let s = Store::new(vec![k.key], None, CAP);
    assert!(s.is_valid_key(&"valid-key".to_string()));
    assert!(!s.is_valid_key(&"other".to_string()));
}
