//! HTTP responses as the service promises them.
//!
//! A response is modelled by its status, the configured
//! `Access-Control-Allow-Origin` value it carries, whether it carries the
//! immutable cache header, and its body bytes. Every response of the
//! service carries the configured allow-origin value; the spec constructors
//! below make that a stated fact rather than a habit.

use vstd::prelude::*;

use crate::id::encoded;

verus! {

/// What a response looks like to a client: the status code, the
/// `Access-Control-Allow-Origin` value, whether the body may be cached
/// forever, and the body bytes.
pub struct Response {
    pub status: u16,
    pub allow_origin: Vec<u8>,
    pub cache_immutable: bool,
    pub body: Vec<u8>,
}

/// The mathematical shadow of a `Response`.
pub ghost struct ResponseModel {
    pub status: int,
    pub allow_origin: Seq<u8>,
    pub cache_immutable: bool,
    pub body: Seq<u8>,
}

impl View for Response {
    type V = ResponseModel;

    open spec fn view(&self) -> ResponseModel {
        ResponseModel {
            status: self.status as int,
            allow_origin: self.allow_origin@,
            cache_immutable: self.cache_immutable,
            body: self.body@,
        }
    }
}

/// The body of the oversized-upload reply: `{"error_class":"RequestTooLargeError"}`.
pub open spec fn too_large_body() -> Seq<u8> {
    seq![
        123u8, 34u8, 101u8, 114u8, 114u8, 111u8, 114u8, 95u8, 99u8, 108u8, 97u8, 115u8,
        115u8, 34u8, 58u8, 34u8, 82u8, 101u8, 113u8, 117u8, 101u8, 115u8, 116u8, 84u8,
        111u8, 111u8, 76u8, 97u8, 114u8, 103u8, 101u8, 69u8, 114u8, 114u8, 111u8, 114u8,
        34u8, 125u8,
    ]
}

/// The body of a successful upload reply: `{"id":"<canonical text>"}`.
pub open spec fn id_json_body(id_text: Seq<u8>) -> Seq<u8> {
    seq![123u8, 34u8, 105u8, 100u8, 34u8, 58u8, 34u8] + id_text + seq![34u8, 125u8]
}

/// Oversized upload: deliberately status 200 with an error-typed JSON body,
/// an observable quirk of the service's interface.
pub open spec fn too_large_response(origin: Seq<u8>) -> ResponseModel {
    ResponseModel { status: 200, allow_origin: origin, cache_immutable: false, body: too_large_body() }
}

/// Successful upload: the canonical identifier text inside a JSON body.
pub open spec fn upload_ok_response(bits: u128, origin: Seq<u8>) -> ResponseModel {
    ResponseModel {
        status: 200,
        allow_origin: origin,
        cache_immutable: false,
        body: id_json_body(encoded(bits)),
    }
}

/// Any storage fault: an opaque 500 with no internal detail leaked.
pub open spec fn storage_fault_response(origin: Seq<u8>) -> ResponseModel {
    ResponseModel { status: 500, allow_origin: origin, cache_immutable: false, body: Seq::empty() }
}

/// A malformed identifier in a retrieve: 400, nothing else.
pub open spec fn bad_identifier_response(origin: Seq<u8>) -> ResponseModel {
    ResponseModel { status: 400, allow_origin: origin, cache_immutable: false, body: Seq::empty() }
}

/// A well-formed identifier never issued: 404.
pub open spec fn not_found_response(origin: Seq<u8>) -> ResponseModel {
    ResponseModel { status: 404, allow_origin: origin, cache_immutable: false, body: Seq::empty() }
}

/// A found blob: its exact bytes, cacheable forever since entries are
/// write-once.
pub open spec fn blob_response(bytes: Seq<u8>, origin: Seq<u8>) -> ResponseModel {
    ResponseModel { status: 200, allow_origin: origin, cache_immutable: true, body: bytes }
}

/// The catch-all reply for any unmatched method or path, notably CORS
/// preflights: an empty success with the cache header.
pub open spec fn preflight_response(origin: Seq<u8>) -> ResponseModel {
    ResponseModel { status: 200, allow_origin: origin, cache_immutable: true, body: Seq::empty() }
}

/// Builds the oversized-upload body bytes.
pub fn make_too_large_body() -> (r: Vec<u8>)
    ensures
        r@ == too_large_body(),
{
    let mut v: Vec<u8> = Vec::new();
    v.push(123);  // {
    v.push(34);  // "
    v.push(101);  // e
    v.push(114);  // r
    v.push(114);  // r
    v.push(111);  // o
    v.push(114);  // r
    v.push(95);  // _
    v.push(99);  // c
    v.push(108);  // l
    v.push(97);  // a
    v.push(115);  // s
    v.push(115);  // s
    v.push(34);  // "
    v.push(58);  // :
    v.push(34);  // "
    v.push(82);  // R
    v.push(101);  // e
    v.push(113);  // q
    v.push(117);  // u
    v.push(101);  // e
    v.push(115);  // s
    v.push(116);  // t
    v.push(84);  // T
    v.push(111);  // o
    v.push(111);  // o
    v.push(76);  // L
    v.push(97);  // a
    v.push(114);  // r
    v.push(103);  // g
    v.push(101);  // e
    v.push(69);  // E
    v.push(114);  // r
    v.push(114);  // r
    v.push(111);  // o
    v.push(114);  // r
    v.push(34);  // "
    v.push(125);  // }
    proof {
        assert(v@ =~= too_large_body());
    }
    v
}

/// Builds the successful-upload body bytes around the identifier text.
pub fn make_id_json_body(id_text: Vec<u8>) -> (r: Vec<u8>)
    ensures
        r@ == id_json_body(id_text@),
{
    let mut v: Vec<u8> = Vec::new();
    v.push(123);  // {
    v.push(34);  // "
    v.push(105);  // i
    v.push(100);  // d
    v.push(34);  // "
    v.push(58);  // :
    v.push(34);  // "
    let mut text = id_text;
    v.append(&mut text);
    v.push(34);  // "
    v.push(125);  // }
    proof {
        assert(v@ =~= id_json_body(id_text@));
    }
    v
}

} // verus!
