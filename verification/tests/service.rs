use blobstore::MAX_UPLOAD_BYTES;
use blobstore::handlers::{
    UploadStep, preflight, retrieve_finish, retrieve_request, upload_finish, upload_request,
};
use blobstore::id::Identifier;
use blobstore::store::{GetOutcome, PutOutcome};

/// A stand-in for the relational table: the same map semantics the
/// contracts are stated over.
struct FakeStore {
    entries: Vec<(u128, Vec<u8>)>,
}

impl FakeStore {
    fn new() -> FakeStore {
        FakeStore { entries: Vec::new() }
    }

    fn put(&mut self, id: Identifier, value: Vec<u8>) -> PutOutcome {
        self.entries.push((id.bits, value));
        PutOutcome::Stored
    }

    fn get(&self, id: Identifier) -> GetOutcome {
        for (bits, value) in self.entries.iter() {
            if *bits == id.bits {
                return GetOutcome::Found(value.clone());
            }
        }
        GetOutcome::Absent
    }
}

fn origin() -> Vec<u8> {
    b"https://example.test".to_vec()
}

fn upload(store: &mut FakeStore, body: Vec<u8>) -> blobstore::response::Response {
    match upload_request(body, origin()) {
        UploadStep::Reply(resp) => resp,
        UploadStep::Store(cmd) => {
            let id = cmd.id;
            let outcome = store.put(id, cmd.value);
            upload_finish(&id, &outcome, origin())
        }
    }
}

fn retrieve(store: &FakeStore, raw: &[u8]) -> blobstore::response::Response {
    match retrieve_request(raw, origin()) {
        Err(resp) => resp,
        Ok(id) => retrieve_finish(store.get(id), origin()),
    }
}

fn id_text_of_upload_body(body: &[u8]) -> Vec<u8> {
    let value: serde_json::Value = serde_json::from_slice(body).expect("upload body must be JSON");
    value["id"].as_str().expect("id field must be a string").as_bytes().to_vec()
}

#[test]
fn upload_then_retrieve_returns_the_same_bytes() {
    let mut store = FakeStore::new();
    let blob = vec![0u8, 1, 2, 3, 254, 255, 42];
    let reply = upload(&mut store, blob.clone());
    assert_eq!(reply.status, 200);
    assert_eq!(reply.allow_origin, origin());
    assert!(!reply.cache_immutable);
    let id_text = id_text_of_upload_body(&reply.body);
    let fetched = retrieve(&store, &id_text);
    assert_eq!(fetched.status, 200);
    assert_eq!(fetched.body, blob);
    assert!(fetched.cache_immutable);
    assert_eq!(fetched.allow_origin, origin());
}

#[test]
fn empty_blob_round_trips() {
    let mut store = FakeStore::new();
    let reply = upload(&mut store, Vec::new());
    assert_eq!(reply.status, 200);
    let id_text = id_text_of_upload_body(&reply.body);
    let fetched = retrieve(&store, &id_text);
    assert_eq!(fetched.status, 200);
    assert_eq!(fetched.body, Vec::<u8>::new());
}

#[test]
fn a_later_upload_leaves_earlier_entries_untouched() {
    let mut store = FakeStore::new();
    let first = vec![1u8, 2, 3];
    let second = vec![9u8, 8, 7];
    let first_id = id_text_of_upload_body(&upload(&mut store, first.clone()).body);
    let second_id = id_text_of_upload_body(&upload(&mut store, second.clone()).body);
    assert_ne!(first_id, second_id);
    assert_eq!(retrieve(&store, &first_id).body, first);
    assert_eq!(retrieve(&store, &second_id).body, second);
}

#[test]
fn blob_at_the_cap_is_accepted() {
    let mut store = FakeStore::new();
    let blob = vec![7u8; MAX_UPLOAD_BYTES];
    let reply = upload(&mut store, blob.clone());
    assert_eq!(reply.status, 200);
    let id_text = id_text_of_upload_body(&reply.body);
    let fetched = retrieve(&store, &id_text);
    assert_eq!(fetched.body, blob);
}

#[test]
fn oversized_blob_gets_the_error_body_and_is_not_stored() {
    let mut store = FakeStore::new();
    let blob = vec![7u8; MAX_UPLOAD_BYTES + 1];
    let reply = upload(&mut store, blob);
    assert_eq!(reply.status, 200);
    assert_eq!(reply.body, b"{\"error_class\":\"RequestTooLargeError\"}".to_vec());
    assert_eq!(reply.allow_origin, origin());
    assert!(store.entries.is_empty());
    let value: serde_json::Value = serde_json::from_slice(&reply.body).unwrap();
    assert_eq!(value["error_class"].as_str(), Some("RequestTooLargeError"));
}

#[test]
fn storage_fault_on_upload_is_an_opaque_500() {
    let id = Identifier::generate();
    let reply = upload_finish(&id, &PutOutcome::Fault, origin());
    assert_eq!(reply.status, 500);
    assert!(reply.body.is_empty());
    assert_eq!(reply.allow_origin, origin());
}

#[test]
fn storage_fault_on_retrieve_is_an_opaque_500() {
    let reply = retrieve_finish(GetOutcome::Fault, origin());
    assert_eq!(reply.status, 500);
    assert!(reply.body.is_empty());
    assert_eq!(reply.allow_origin, origin());
}

#[test]
fn unknown_identifier_is_404() {
    let store = FakeStore::new();
    let reply = retrieve(&store, b"7ZZZZZZZZZZZZZZZZZZZZZZZZZ");
    assert_eq!(reply.status, 404);
    assert!(reply.body.is_empty());
    assert_eq!(reply.allow_origin, origin());
}

#[test]
fn malformed_identifier_is_400_without_touching_the_store() {
    let store = FakeStore::new();
    let reply = retrieve(&store, b"definitely-not-an-id");
    assert_eq!(reply.status, 400);
    assert!(reply.body.is_empty());
    assert_eq!(reply.allow_origin, origin());
    match retrieve_request(b"definitely-not-an-id", origin()) {
        Err(resp) => assert_eq!(resp.status, 400),
        Ok(_) => panic!("malformed text must not parse"),
    }
}

#[test]
fn upload_body_is_the_exact_id_json() {
    let mut store = FakeStore::new();
    let reply = upload(&mut store, vec![1u8]);
    let id_text = id_text_of_upload_body(&reply.body);
    let mut expected = b"{\"id\":\"".to_vec();
    expected.extend_from_slice(&id_text);
    expected.extend_from_slice(b"\"}");
    assert_eq!(reply.body, expected);
    assert_eq!(id_text.len(), blobstore::id::CANONICAL_LEN);
}

#[test]
fn preflight_carries_headers_and_empty_body() {
    let reply = preflight(origin());
    assert_eq!(reply.status, 200);
    assert!(reply.cache_immutable);
    assert!(reply.body.is_empty());
    assert_eq!(reply.allow_origin, origin());
}
