//! Plain models of the HTTP values the service reads and produces.
//!
//! The service never looks at headers, query strings or request
//! bodies, so a request is modelled by the only two things the router
//! dispatches on: the method and the exact path. A response carries a
//! status code, the two headers the handlers set, and the body text.

use vstd::prelude::*;

verus! {

/// An HTTP request method. Matching in the router is exact, so every
/// standard method is listed; a request with any method other than
/// `Get` or `Post` can only ever reach the not-found response.
#[derive(Clone, Copy, PartialEq, Eq, Structural, Debug)]
pub enum Method {
    Get,
    Post,
    Put,
    Delete,
    Head,
    Options,
    Patch,
    Connect,
    Trace,
    /// Any nonstandard extension method. No route uses one, so such
    /// a request always receives the not-found response.
    Other,
}

/// The parts of an incoming HTTP request that the service reads: the
/// method and the exact request path. Handlers ignore everything else
/// (headers, query, body), which the model makes impossible to depend
/// on.
pub struct Request {
    pub method: Method,
    pub path: String,
}

/// Mathematical view of a [`Request`].
pub ghost struct RequestSpec {
    pub method: Method,
    pub path: Seq<char>,
}

impl View for Request {
    type V = RequestSpec;

    open spec fn view(&self) -> RequestSpec {
        RequestSpec { method: self.method, path: self.path@ }
    }
}

/// An HTTP response as the service produces it: the status code, the
/// `Content-Type` and `Content-Length` headers when the handler sets
/// them, and the body text.
pub struct Response {
    pub status: u16,
    pub content_type: Option<String>,
    pub content_length: Option<u64>,
    pub body: String,
}

/// Mathematical view of a [`Response`].
#[verifier::ext_equal]
pub ghost struct ResponseSpec {
    pub status: int,
    pub content_type: Option<Seq<char>>,
    pub content_length: Option<int>,
    pub body: Seq<char>,
}

impl View for Response {
    type V = ResponseSpec;

    open spec fn view(&self) -> ResponseSpec {
        ResponseSpec {
            status: self.status as int,
            content_type: match self.content_type {
                Some(ct) => Some(ct@),
                None => None,
            },
            content_length: match self.content_length {
                Some(n) => Some(n as int),
                None => None,
            },
            body: self.body@,
        }
    }
}

/// The response every successful handler returns: status 200, a
/// `text/plain` content type, a `Content-Length` equal to the length
/// of the body, and the given body.
pub open spec fn text_response_spec(body: Seq<char>) -> ResponseSpec {
    ResponseSpec {
        status: 200,
        content_type: Some("text/plain"@),
        content_length: Some(body.len() as int),
        body,
    }
}

/// The response to a request no route matches: status 404 with the
/// body `Not Found` and no headers set by the service.
pub open spec fn not_found_spec() -> ResponseSpec {
    ResponseSpec {
        status: 404,
        content_type: None,
        content_length: None,
        body: "Not Found"@,
    }
}

/// Builds the fixed success response around a body: status 200,
/// `text/plain`, and a `Content-Length` that matches the body.
pub fn text_response(body: &str) -> (r: Response)
    ensures
        r@ == text_response_spec(body@),
{
    let len: usize = body.unicode_len();
    let r = Response {
        status: 200,
        content_type: Some("text/plain".to_owned()),
        content_length: Some(len as u64),
        body: body.to_owned(),
    };
    proof {
        assert(r@ =~= text_response_spec(body@));
    }
    r
}

/// Builds the not-found response.
pub fn not_found_response() -> (r: Response)
    ensures
        r@ == not_found_spec(),
{
    let r = Response {
        status: 404,
        content_type: None,
        content_length: None,
        body: "Not Found".to_owned(),
    };
    proof {
        assert(r@ =~= not_found_spec());
    }
    r
}

} // verus!
