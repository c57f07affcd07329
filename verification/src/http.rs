//! The request and response shapes of the admin HTTP surface.
//!
//! A request reaches the router as a method plus a path; the router answers
//! with one [`Response`]. The transport (sockets, framing, keep-alive) lives
//! outside the library and only ever hands over these plain values.

use vstd::prelude::*;

verus! {

/// The HTTP methods the router distinguishes. Routing only ever compares
/// against `Get`; every other method falls to the `404` route. `Other` stands
/// for any extension method the transport may deliver.
#[derive(Clone, Copy, PartialEq, Eq, Structural)]
pub enum HttpMethod {
    Get,
    Head,
    Post,
    Put,
    Delete,
    Connect,
    Options,
    Trace,
    Patch,
    Other,
}

/// One HTTP response: a status code, an optional `Content-Type` header value,
/// and the body bytes.
pub struct Response {
    pub status: u16,
    pub content_type: Option<String>,
    pub body: Vec<u8>,
}

/// The mathematical image of a [`Response`]: the same three parts over
/// sequences instead of heap values.
pub struct ResponseModel {
    pub status: u16,
    pub content_type: Option<Seq<char>>,
    pub body: Seq<u8>,
}

impl View for Response {
    type V = ResponseModel;

    open spec fn view(&self) -> ResponseModel {
        ResponseModel {
            status: self.status,
            content_type: match self.content_type {
                Some(s) => Some(s@),
                None => None,
            },
            body: self.body@,
        }
    }
}

/// True exactly when `m` is `GET`.
pub fn is_get(m: &HttpMethod) -> (r: bool)
    ensures
        r == (*m == HttpMethod::Get),
{
    matches!(m, HttpMethod::Get)
}

/// Byte-for-byte equality of two byte slices; the router's path match is
/// exact, with no normalization of case, trailing slashes or query strings.
pub fn bytes_eq(a: &[u8], b: &[u8]) -> (r: bool)
    ensures
        r == (a@ == b@),
{
    if a.len() != b.len() {
        return false;
    }
    let mut i: usize = 0;
    while i < a.len()
        invariant
            0 <= i <= a@.len(),
            a@.len() == b@.len(),
            forall|j: int| 0 <= j < i ==> a@[j] == b@[j],
        decreases a@.len() - i,
    {
        if a[i] != b[i] {
            return false;
        }
        i = i + 1;
    }
    proof {
        assert(a@ =~= b@);
    }
    true
}

} // verus!
