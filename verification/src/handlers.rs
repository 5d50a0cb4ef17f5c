//! The three request handlers, as verified decision steps.
//!
//! The transport reads bodies and talks to the database; the decisions in
//! between live here. An upload is two steps: `upload_request` admits or
//! rejects the body and names the entry to record; `upload_finish` turns
//! the store's answer into the reply. A retrieve is two steps in the same
//! way. The spec functions `upload_outcome` and `retrieve_outcome` state
//! the whole pipeline over the store model, and the laws at the bottom are
//! proved of them.

use vstd::prelude::*;

use crate::MAX_UPLOAD_BYTES;
use crate::id::{Identifier, decoded, encoded};
use crate::response::{
    Response, ResponseModel, bad_identifier_response, blob_response, make_id_json_body,
    make_too_large_body, not_found_response, preflight_response, storage_fault_response,
    too_large_response, upload_ok_response,
};
use crate::store::{GetOutcome, PutOutcome, store_get, store_put};

verus! {

/// The entry an admitted upload asks the store to record.
pub struct StoreCommand {
    pub id: Identifier,
    pub value: Vec<u8>,
}

/// What `upload_request` decides: record an entry, or reply at once.
pub enum UploadStep {
    Store(StoreCommand),
    Reply(Response),
}

/// The reply of the whole upload pipeline, over the store model: `s` the
/// contents before, `id` the identifier drawn for the request, `put_ok`
/// what the store answered where it was asked.
pub open spec fn upload_outcome(
    s: Map<u128, Seq<u8>>,
    id: u128,
    body: Seq<u8>,
    put_ok: bool,
    origin: Seq<u8>,
) -> (ResponseModel, Map<u128, Seq<u8>>) {
    if body.len() > MAX_UPLOAD_BYTES {
        (too_large_response(origin), s)
    } else if put_ok {
        (upload_ok_response(id, origin), store_put(s, id, body))
    } else {
        (storage_fault_response(origin), s)
    }
}

/// The reply of the whole retrieve pipeline, over the store model: `fault`
/// is whether the store failed to answer where it was asked.
pub open spec fn retrieve_outcome(
    s: Map<u128, Seq<u8>>,
    raw: Seq<u8>,
    fault: bool,
    origin: Seq<u8>,
) -> ResponseModel {
    match decoded(raw) {
        None => bad_identifier_response(origin),
        Some(bits) => if fault {
            storage_fault_response(origin)
        } else {
            match store_get(s, bits) {
                Some(bytes) => blob_response(bytes, origin),
                None => not_found_response(origin),
            }
        },
    }
}

/// Admits an upload body or rejects it for size. An admitted body is handed
/// back unchanged, under a freshly drawn identifier, for the store to
/// record; an oversized one is answered at once, and nothing is recorded.
pub fn upload_request(body: Vec<u8>, origin: Vec<u8>) -> (r: UploadStep)
    ensures
        body@.len() > MAX_UPLOAD_BYTES ==> (r matches UploadStep::Reply(resp) && resp@
            == too_large_response(origin@)),
        body@.len() <= MAX_UPLOAD_BYTES ==> (r matches UploadStep::Store(cmd) && cmd.value@
            == body@),
{
    if body.len() > MAX_UPLOAD_BYTES {
        UploadStep::Reply(
            Response {
                status: 200,
                allow_origin: origin,
                cache_immutable: false,
                body: make_too_large_body(),
            },
        )
    } else {
        UploadStep::Store(StoreCommand { id: Identifier::generate(), value: body })
    }
}

/// The oversized-upload reply alone, for a transport that bounds its body
/// read and so learns of the excess without ever holding the bytes.
pub fn too_large_reply(origin: Vec<u8>) -> (r: Response)
    ensures
        r@ == too_large_response(origin@),
{
    Response {
        status: 200,
        allow_origin: origin,
        cache_immutable: false,
        body: make_too_large_body(),
    }
}

/// Turns the store's answer to a put into the upload reply.
pub fn upload_finish(id: &Identifier, outcome: &PutOutcome, origin: Vec<u8>) -> (r: Response)
    ensures
        outcome is Stored ==> r@ == upload_ok_response(id.bits, origin@),
        outcome is Fault ==> r@ == storage_fault_response(origin@),
{
    match outcome {
        PutOutcome::Stored => Response {
            status: 200,
            allow_origin: origin,
            cache_immutable: false,
            body: make_id_json_body(id.canonical()),
        },
        PutOutcome::Fault => Response {
            status: 500,
            allow_origin: origin,
            cache_immutable: false,
            body: Vec::new(),
        },
    }
}

/// Parses the path segment of a retrieve. Malformed text is answered with
/// 400 before the store is ever asked.
pub fn retrieve_request(raw: &[u8], origin: Vec<u8>) -> (r: Result<Identifier, Response>)
    ensures
        decoded(raw@) is Some ==> (r matches Ok(id) && decoded(raw@) == Some(id.bits)),
        decoded(raw@) is None ==> (r matches Err(resp) && resp@ == bad_identifier_response(
            origin@,
        )),
{
    match Identifier::parse(raw) {
        Some(id) => Ok(id),
        None => Err(
            Response {
                status: 400,
                allow_origin: origin,
                cache_immutable: false,
                body: Vec::new(),
            },
        ),
    }
}

/// Turns the store's answer to a get into the retrieve reply.
pub fn retrieve_finish(outcome: GetOutcome, origin: Vec<u8>) -> (r: Response)
    ensures
        (match outcome {
            GetOutcome::Found(bytes) => r@ == blob_response(bytes@, origin@),
            GetOutcome::Absent => r@ == not_found_response(origin@),
            GetOutcome::Fault => r@ == storage_fault_response(origin@),
        }),
{
    match outcome {
        GetOutcome::Found(bytes) => Response {
            status: 200,
            allow_origin: origin,
            cache_immutable: true,
            body: bytes,
        },
        GetOutcome::Absent => Response {
            status: 404,
            allow_origin: origin,
            cache_immutable: false,
            body: Vec::new(),
        },
        GetOutcome::Fault => Response {
            status: 500,
            allow_origin: origin,
            cache_immutable: false,
            body: Vec::new(),
        },
    }
}

/// The catch-all reply for any unmatched method or path.
pub fn preflight(origin: Vec<u8>) -> (r: Response)
    ensures
        r@ == preflight_response(origin@),
{
    Response { status: 200, allow_origin: origin, cache_immutable: true, body: Vec::new() }
}

/// A blob uploaded within the size cap is returned byte for byte by a
/// retrieve of the canonical identifier text that the upload reported.
pub proof fn lemma_upload_then_retrieve(
    s: Map<u128, Seq<u8>>,
    bits: u128,
    body: Seq<u8>,
    origin: Seq<u8>,
    origin2: Seq<u8>,
)
    requires
        body.len() <= MAX_UPLOAD_BYTES,
    ensures
        ({
            let (reply, s2) = upload_outcome(s, bits, body, true, origin);
            reply == upload_ok_response(bits, origin) && retrieve_outcome(
                s2,
                encoded(bits),
                false,
                origin2,
            ) == blob_response(body, origin2)
        }),
{
    crate::id::lemma_canonical_round_trip(bits);
}

/// An oversized upload is answered with the RequestTooLargeError body and
/// leaves the store exactly as it was, whatever the store would have said.
pub proof fn lemma_oversized_upload_rejected(
    s: Map<u128, Seq<u8>>,
    bits: u128,
    body: Seq<u8>,
    put_ok: bool,
    origin: Seq<u8>,
)
    requires
        body.len() > MAX_UPLOAD_BYTES,
    ensures
        upload_outcome(s, bits, body, put_ok, origin) == (too_large_response(origin), s),
{
}

/// A well-formed identifier never issued is answered with 404.
pub proof fn lemma_unknown_identifier_not_found(
    s: Map<u128, Seq<u8>>,
    raw: Seq<u8>,
    origin: Seq<u8>,
)
    requires
        decoded(raw) is Some,
        !s.dom().contains(decoded(raw).unwrap()),
    ensures
        retrieve_outcome(s, raw, false, origin) == not_found_response(origin),
{
}

/// Malformed identifier text is answered with 400, and the answer does not
/// depend on the store's contents nor on whether the store would have
/// faulted: the store is never touched.
pub proof fn lemma_malformed_identifier_rejected(
    s1: Map<u128, Seq<u8>>,
    s2: Map<u128, Seq<u8>>,
    raw: Seq<u8>,
    fault1: bool,
    fault2: bool,
    origin: Seq<u8>,
)
    requires
        decoded(raw) is None,
    ensures
        retrieve_outcome(s1, raw, fault1, origin) == bad_identifier_response(origin),
        retrieve_outcome(s1, raw, fault1, origin) == retrieve_outcome(s2, raw, fault2, origin),
{
}

/// Every reply of the service, the preflight and the error replies
/// included, carries the configured allow-origin value.
pub proof fn lemma_replies_carry_allow_origin(
    s: Map<u128, Seq<u8>>,
    bits: u128,
    body: Seq<u8>,
    put_ok: bool,
    raw: Seq<u8>,
    fault: bool,
    origin: Seq<u8>,
)
    ensures
        upload_outcome(s, bits, body, put_ok, origin).0.allow_origin == origin,
        retrieve_outcome(s, raw, fault, origin).allow_origin == origin,
        preflight_response(origin).allow_origin == origin,
{
}

} // verus!
