//! The capability behind a route, and the built-in preflight page.

use vstd::prelude::*;
use crate::request::Request;
use crate::response::{headers_view, AppResponse, ResponseView};

verus! {

/// The business logic behind a route: renders the response to a request, with
/// the shared resources at hand.
///
/// A page has no error channel. Whatever goes wrong inside it, it answers with
/// a response that says so.
pub trait Page<T>: Send + Sync where T: Send + Sync {
    /// Whether a call of `render` on `request` that finds the resources as
    /// `before` may leave them as `after` and answer `response`.
    ///
    /// A page that says nothing here promises nothing: every outcome is one
    /// that it may have.
    open spec fn renders(&self, request: &Request, before: T, after: T, response: AppResponse) -> bool {
        true
    }

    fn render(&self, request: &Request, resources: &mut T) -> (response: AppResponse)
        ensures
            self.renders(request, *old(resources), *final(resources), response),
    ;
}

/// The page that answers a preflight request. It is meant to stand behind a
/// matcher for the `OPTIONS` method.
pub struct Cors;

/// The three headers of the preflight answer.
pub open spec fn cors_headers() -> Seq<(Seq<char>, Seq<char>)> {
    seq![
        ("Access-Control-Allow-Origin"@, "*"@),
        ("Access-Control-Allow-Methods"@, "GET, POST, OPTIONS"@),
        ("Access-Control-Allow-Headers"@, "Content-Type"@),
    ]
}

/// The preflight answer: status 200, the three headers, no body, no cookies.
pub open spec fn cors_response() -> ResponseView {
    ResponseView {
        status_code: 200,
        headers: cors_headers(),
        body: Seq::empty(),
        cookies: Seq::empty(),
    }
}

impl<T: Send + Sync> Page<T> for Cors {
    /// The answer is always the same, and the resources are left alone.
    open spec fn renders(&self, request: &Request, before: T, after: T, response: AppResponse) -> bool {
        response@ == cors_response() && after == before
    }

    fn render(&self, _req: &Request, _resources: &mut T) -> (response: AppResponse) {
        let headers = vec![
            ("Access-Control-Allow-Origin".to_string(), "*".to_string()),
            ("Access-Control-Allow-Methods".to_string(), "GET, POST, OPTIONS".to_string()),
            ("Access-Control-Allow-Headers".to_string(), "Content-Type".to_string()),
        ];
        assert(headers_view(headers@) =~= cors_headers());
        AppResponse::new(200, headers, Vec::new())
    }
}

} // verus!
