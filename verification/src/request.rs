//! The request that is dispatched.

use vstd::prelude::*;

verus! {

/// An inbound request, as the dispatcher sees it.
///
/// Routing reads `method` and `path` and nothing else. `headers` and `body` are
/// carried along untouched for the page that renders the response.
#[derive(Debug)]
pub struct Request {
    pub method: String,
    pub path: String,
    pub headers: Vec<(String, String)>,
    pub body: Vec<u8>,
}

/// Whether `request` asks for `path` with `method`.
pub open spec fn routes_to(request: &Request, method: Seq<char>, path: Seq<char>) -> bool {
    request.method@ == method && request.path@ == path
}

impl Request {
    /// A request for `path` with `method`, without headers or body.
    pub fn new(method: &str, path: &str) -> (request: Self)
        ensures
            request.method@ == method@,
            request.path@ == path@,
            request.headers@.len() == 0,
            request.body@.len() == 0,
    {
        Request {
            method: method.to_string(),
            path: path.to_string(),
            headers: Vec::new(),
            body: Vec::new(),
        }
    }
}

} // verus!
